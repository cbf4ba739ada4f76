//! Plain-value vocabulary shared by both controllers: screen edges, peer
//! addresses, device events and the protocol events exchanged between peers.

use vstd::prelude::*;

verus! {

/// Stable identifier of a configured peer; it is the peer's slot in the registry.
pub type ClientHandle = u64;

/// Screen edge at which capture for a peer begins.
#[derive(Clone, Copy, Debug, PartialEq, Eq, Structural)]
pub enum Position {
    Left,
    Right,
    Top,
    Bottom,
}

/// Address of a peer's datagram endpoint, held as integers.
///
/// The IPv4 address is the big-endian reading of its four octets, the IPv6
/// address that of its sixteen.
#[allow(inconsistent_fields)]
#[derive(Clone, Copy, Debug, PartialEq, Eq, Structural)]
pub enum SocketAddress {
    V4 { ip: u32, port: u16 },
    V6 { ip: u128, port: u16, flowinfo: u32, scope_id: u32 },
}

/// Pointer events. Fractional quantities are carried as the bit pattern of
/// their 64-bit floating-point value, so that nothing is lost on the way
/// through the controllers.
#[derive(Clone, Copy, Debug, PartialEq, Eq, Structural)]
pub enum PointerEvent {
    Motion { time: u32, dx_bits: u64, dy_bits: u64 },
    Button { time: u32, button: u32, state: u32 },
    Axis { time: u32, axis: u8, value_bits: u64 },
    AxisDiscrete120 { axis: u8, value: i32 },
    Frame,
}

/// Keyboard events. A `Key` with `state == 0` is a release, any other state a press.
#[derive(Clone, Copy, Debug, PartialEq, Eq, Structural)]
pub enum KeyboardEvent {
    Key { time: u32, key: u32, state: u8 },
    Modifiers { mods_depressed: u32, mods_latched: u32, mods_locked: u32, group: u32 },
}

/// A raw device event.
#[derive(Clone, Copy, Debug, PartialEq, Eq, Structural)]
pub enum InputEvent {
    Pointer(PointerEvent),
    Keyboard(KeyboardEvent),
}

/// Events exchanged between peers.
#[derive(Clone, Copy, Debug, PartialEq, Eq, Structural)]
pub enum ProtoEvent {
    Enter(Position),
    Leave,
    Ack(ClientHandle),
    Input(InputEvent),
    Ping,
    Pong,
    Disconnect,
}

/// The release event synthesized for a key that is still held.
pub open spec fn key_release(key: u32) -> InputEvent {
    InputEvent::Keyboard(KeyboardEvent::Key { time: 0, key, state: 0 })
}

/// The event that clears every modifier.
pub open spec fn modifiers_clear() -> InputEvent {
    InputEvent::Keyboard(
        KeyboardEvent::Modifiers { mods_depressed: 0, mods_latched: 0, mods_locked: 0, group: 0 },
    )
}

impl SocketAddress {
    /// The IPv4 endpoint `a.b.c.d:port`.
    pub fn v4(a: u8, b: u8, c: u8, d: u8, port: u16) -> (addr: SocketAddress)
        ensures
            addr == (SocketAddress::V4 {
                ip: (a as u32 * 0x100_0000 + b as u32 * 0x1_0000 + c as u32 * 0x100 + d as u32) as u32,
                port,
            }),
    {
        let ip: u32 = a as u32 * 0x100_0000 + b as u32 * 0x1_0000 + c as u32 * 0x100 + d as u32;
        SocketAddress::V4 { ip, port }
    }

    /// Whether two addresses are the same endpoint.
    pub fn same(&self, other: &SocketAddress) -> (eq: bool)
        ensures
            eq == (*self == *other),
    {
        match (*self, *other) {
            (SocketAddress::V4 { ip: ia, port: pa }, SocketAddress::V4 { ip: ib, port: pb }) => {
                ia == ib && pa == pb
            },
            (
                SocketAddress::V6 { ip: ia, port: pa, flowinfo: fa, scope_id: sa },
                SocketAddress::V6 { ip: ib, port: pb, flowinfo: fb, scope_id: sb },
            ) => ia == ib && pa == pb && fa == fb && sa == sb,
            _ => false,
        }
    }
}

impl InputEvent {
    /// The release event for `key`.
    pub fn release_of(key: u32) -> (e: InputEvent)
        ensures
            e == key_release(key),
    {
        InputEvent::Keyboard(KeyboardEvent::Key { time: 0, key, state: 0 })
    }

    /// The modifier-clearing event.
    pub fn clear_modifiers() -> (e: InputEvent)
        ensures
            e == modifiers_clear(),
    {
        InputEvent::Keyboard(
            KeyboardEvent::Modifiers {
                mods_depressed: 0,
                mods_latched: 0,
                mods_locked: 0,
                group: 0,
            },
        )
    }
}

} // verus!
