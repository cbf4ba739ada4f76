//! What holds of the two controllers together, one on each of two peers:
//! what the capturing side sends, the emulating side acts on.

use crate::capture::{
    capture_step, enter_position, CaptureAction, CaptureEvent, CaptureInput, CaptureSessionView, State,
};
use crate::client::{lookup, pressed_keys_of};
use crate::emulation::{is_duplicate, udp_rx, EmulationAction};
use crate::event::{ClientHandle, InputEvent, KeyboardEvent, ProtoEvent, SocketAddress};
use crate::server::{Mode, ServerView};
use vstd::prelude::*;

verus! {

/// Whether `input` is a key event that repeats what `held` already says.
pub open spec fn repeats(held: Set<u32>, input: InputEvent) -> bool {
    input matches InputEvent::Keyboard(KeyboardEvent::Key { key, state, .. }) && is_duplicate(
        held,
        key,
        state,
    )
}

/// Captured input reaches the backend of the peer that was entered.
///
/// On the capturing side, let a begin for `handle` be handled while nothing
/// asks for a release, then the acknowledgement of `handle`, then a captured
/// `input`. The begin sends an enter to `handle`, the acknowledgement starts
/// the forwarding, and `input` is sent to `handle` as it is.
///
/// On the side of the peer, which knows the sender under `addr`, let the
/// enter and then the input be handled as they arrive from `addr`. Whatever
/// the mode was, the enter is answered with a leave and the mode is
/// `Receiving` afterwards; and `input` is the last thing handed to the
/// backend, for the sender, unless it is a key event that repeats what is
/// already so.
pub proof fn law_round_trip(
    local: CaptureSessionView,
    handle: ClientHandle,
    input: InputEvent,
    peer: ServerView,
    peer_ignored: Option<SocketAddress>,
    addr: SocketAddress,
    entered: ServerView,
    entered_ignored: Option<SocketAddress>,
    enter_actions: Seq<EmulationAction>,
    post: ServerView,
    post_ignored: Option<SocketAddress>,
    actions: Seq<EmulationAction>,
)
    requires
        !local.server.should_release,
        peer.clients.len() <= usize::MAX,
        lookup(peer.clients, addr) is Some,
        udp_rx(
            peer,
            peer_ignored,
            ProtoEvent::Enter(enter_position(local.server.clients, handle)),
            addr,
            entered,
            entered_ignored,
            enter_actions,
        ),
        udp_rx(
            entered,
            entered_ignored,
            ProtoEvent::Input(input),
            addr,
            post,
            post_ignored,
            actions,
        ),
        !repeats(pressed_keys_of(peer.clients, lookup(peer.clients, addr)->0 as int), input),
    ensures
        ({
            let (began, first, _) = capture_step(
                local,
                CaptureInput::Event(handle, CaptureEvent::Begin, false),
            );
            let (acked, silent, _) = capture_step(
                began,
                CaptureInput::Inbound(handle, ProtoEvent::Ack(handle)),
            );
            let (sent, second, _) = capture_step(
                acked,
                CaptureInput::Event(handle, CaptureEvent::Input(input), false),
            );
            &&& first.len() >= 1
            &&& first.last() == CaptureAction::Send(
                ProtoEvent::Enter(enter_position(local.server.clients, handle)),
                handle,
            )
            &&& acked.state == State::Sending
            &&& silent.len() == 0
            &&& second == seq![CaptureAction::Send(ProtoEvent::Input(input), handle)]
        }),
        enter_actions.len() >= 1,
        enter_actions[0] == EmulationAction::Send(ProtoEvent::Leave, addr),
        entered.mode == Mode::Receiving,
        actions.len() >= 1,
        actions.last() == EmulationAction::Consume(input, lookup(peer.clients, addr)->0),
{
    let sender = lookup(peer.clients, addr)->0;
    crate::client::lemma_lookup_least(peer.clients, addr, 0);
    crate::client::lemma_lookup_same_routes(peer.clients, entered.clients, addr, 0);
    assert(pressed_keys_of(entered.clients, sender as int) == pressed_keys_of(
        peer.clients,
        sender as int,
    ));
}

/// Input from a peer ends sending.
///
/// While the mode is `Sending`, let anything but a leave, a ping, a pong or
/// a disconnect arrive from a known peer. Then the mode is `Receiving`
/// afterwards and the capture controller is told to release. And a capture
/// controller that is told to release is idle afterwards, with no active
/// peer, and has its backend let go.
pub proof fn law_peer_input_ends_sending(
    pre: ServerView,
    ignored: Option<SocketAddress>,
    event: ProtoEvent,
    addr: SocketAddress,
    post: ServerView,
    post_ignored: Option<SocketAddress>,
    actions: Seq<EmulationAction>,
    local: CaptureSessionView,
)
    requires
        udp_rx(pre, ignored, event, addr, post, post_ignored, actions),
        lookup(pre.clients, addr) is Some,
        pre.mode == Mode::Sending,
        !(event is Leave || event is Ping || event is Pong || event is Disconnect),
    ensures
        post.mode == Mode::Receiving,
        actions.contains(EmulationAction::ReleaseCapture),
        ({
            let (released, released_actions, finished) = capture_step(
                local,
                CaptureInput::Request(crate::capture::CaptureRequest::Release),
            );
            &&& released.state == State::Idle
            &&& released.server.active == None::<ClientHandle>
            &&& released_actions == seq![CaptureAction::Release]
            &&& !finished
        }),
{
    let handle = lookup(pre.clients, addr)->0;
    let heard = ServerView {
        clients: crate::emulation::heard_from(pre.clients, handle, addr),
        ..pre
    };
    let reply = if event is Enter {
        seq![EmulationAction::Send(ProtoEvent::Leave, addr)]
    } else {
        Seq::<EmulationAction>::empty()
    };
    let rest = crate::emulation::by_mode(heard, handle, event).1;
    assert(rest[0] == EmulationAction::ReleaseCapture);
    assert((reply + rest)[reply.len() as int] == EmulationAction::ReleaseCapture);
}

} // verus!
