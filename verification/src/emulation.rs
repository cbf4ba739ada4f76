//! The emulation controller: what is done with each datagram that arrives
//! from a peer, which keys are held for whom, and what is released when a
//! session ends.
//!
//! Nothing here touches a backend or a socket. Each function changes the
//! shared context and returns the actions that its caller has to perform, in
//! order.

use crate::client::{
    has_client, keys_in_order, lists_clients, lookup, pressed_keys_of, with_state, ClientManager,
    ClientStateView, RegistryView,
};
use crate::event::{
    key_release, modifiers_clear, ClientHandle, InputEvent, KeyboardEvent, ProtoEvent,
    SocketAddress,
};
use crate::server::{IdleEvent, Mode, Server, ServerView, Status, Supervision};
use vstd::prelude::*;

verus! {

/// What the emulation controller asks its caller to do.
#[derive(Clone, Copy, Debug, PartialEq, Eq, Structural)]
pub enum EmulationAction {
    /// Warn that events from this address are ignored.
    LogIgnored(SocketAddress),
    /// Send a protocol event to an address.
    Send(ProtoEvent, SocketAddress),
    /// Tell the capture controller to release.
    ReleaseCapture,
    /// Restart the keep-alive timer.
    RestartPingTimer,
    /// Hand an event to the emulation backend on behalf of a peer.
    Consume(InputEvent, ClientHandle),
    /// Set the backend up for a peer.
    Create(ClientHandle),
    /// Tear the backend's state for a peer down.
    Destroy(ClientHandle),
    /// Shut the backend down.
    Terminate,
}

/// The keys held after a key event: a release (`state == 0`) takes the key
/// out, a press puts it in.
pub open spec fn keys_after(pressed: Set<u32>, key: u32, state: u8) -> Set<u32> {
    if state == 0 {
        pressed.remove(key)
    } else {
        pressed.insert(key)
    }
}

/// Whether a key event repeats what is already so: a release of a key that
/// is not held, or a press of one that is.
pub open spec fn is_duplicate(pressed: Set<u32>, key: u32, state: u8) -> bool {
    if state == 0 {
        !pressed.contains(key)
    } else {
        pressed.contains(key)
    }
}

/// The registry after the keys held for `handle` became `keys`.
pub open spec fn with_keys(reg: RegistryView, handle: ClientHandle, keys: Set<u32>) -> RegistryView {
    if has_client(reg, handle as int) {
        with_state(
            reg,
            handle as int,
            ClientStateView { pressed_keys: keys, ..reg[handle as int]->0.state },
        )
    } else {
        reg
    }
}

/// The registry after `handle` was heard from at `addr`.
pub open spec fn heard_from(reg: RegistryView, handle: ClientHandle, addr: SocketAddress) -> RegistryView {
    if has_client(reg, handle as int) {
        with_state(
            reg,
            handle as int,
            ClientStateView { alive: true, active_addr: Some(addr), ..reg[handle as int]->0.state },
        )
    } else {
        reg
    }
}

/// The actions that release `keys` for `client`, one after the other, and
/// then clear the modifiers.
pub open spec fn release_actions(keys: Seq<u32>, client: ClientHandle) -> Seq<EmulationAction> {
    Seq::new(
        keys.len() + 1,
        |i: int|
            if i < keys.len() {
                EmulationAction::Consume(key_release(keys[i]), client)
            } else {
                EmulationAction::Consume(modifiers_clear(), client)
            },
    )
}

/// `actions` release each key of `pressed` once for `client`, in some order,
/// and then clear the modifiers.
pub open spec fn releases(actions: Seq<EmulationAction>, pressed: Set<u32>, client: ClientHandle) -> bool {
    exists|keys: Seq<u32>|
        keys.no_duplicates() && keys.to_set() == pressed && actions == #[trigger] release_actions(
            keys,
            client,
        )
}

/// Records a key event for `handle` and says what to do with it.
///
/// The first result says whether the event is to be dropped: it repeats
/// what is already so, or no such peer is registered. The second says
/// whether the keep-alive timer is to be restarted: a key is held afterwards.
pub fn update_client_keys(
    client_manager: &mut ClientManager,
    handle: ClientHandle,
    key: u32,
    state: u8,
) -> (res: (bool, bool))
    ensures
        final(client_manager)@ == with_keys(
            old(client_manager)@,
            handle,
            keys_after(pressed_keys_of(old(client_manager)@, handle as int), key, state),
        ),
        res == (if has_client(old(client_manager)@, handle as int) {
            (
                is_duplicate(pressed_keys_of(old(client_manager)@, handle as int), key, state),
                !keys_after(
                    pressed_keys_of(old(client_manager)@, handle as int),
                    key,
                    state,
                ).is_empty(),
            )
        } else {
            (true, false)
        }),
{
    broadcast use vstd::std_specs::hash::group_hash_axioms;

    match client_manager.get_mut(handle) {
        None => (true, false),
        Some(client) => {
            // a press of a held key and a release of a free one are dropped
            let ignore_event = if state == 0 {
                !client.state.pressed_keys.remove(&key)
            } else {
                !client.state.pressed_keys.insert(key)
            };
            let restart_timer = !client.state.pressed_keys.is_empty();
            (ignore_event, restart_timer)
        },
    }
}

/// Finds the peer that `addr` belongs to and notes that it was heard from.
///
/// For a known peer the result is its handle: the peer is marked alive, `addr`
/// becomes its active address and the ignored-address slot is emptied. For an
/// unknown address the registry stays as it is, the address is remembered in
/// the slot, and the second result says whether a warning is due: it is,
/// unless the slot already held this address.
pub fn activate_client_if_exists(
    client_manager: &mut ClientManager,
    addr: SocketAddress,
    last_ignored: &mut Option<SocketAddress>,
) -> (res: (Option<ClientHandle>, bool))
    ensures
        res.0 == lookup(old(client_manager)@, addr),
        match res.0 {
            Some(handle) => {
                &&& final(client_manager)@ == heard_from(old(client_manager)@, handle, addr)
                &&& *final(last_ignored) == None::<SocketAddress>
                &&& !res.1
            },
            None => {
                &&& final(client_manager)@ == old(client_manager)@
                &&& *final(last_ignored) == Some(addr)
                &&& res.1 == (*old(last_ignored) != Some(addr))
            },
        },
{
    let handle = match client_manager.get_client(addr) {
        Some(handle) => handle,
        None => {
            // warn for the first event of a run of events from this address only
            let report = match *last_ignored {
                Some(prev) => !prev.same(&addr),
                None => true,
            };
            *last_ignored = Some(addr);
            return (None, report);
        },
    };
    // the next ignored address is reported again
    *last_ignored = None;
    match client_manager.get_mut(handle) {
        Some(client) => {
            client.state.alive = true;
            client.state.active_addr = Some(addr);
        },
        None => {},
    }
    (Some(handle), false)
}

/// Releases every key held for `client`.
///
/// The result consumes a release for each held key, in the order in which
/// the set hands the keys out, and then an event that clears the modifiers.
/// Afterwards no key is held for `client`. For a handle that names no peer
/// the result is the modifier-clearing event alone.
pub fn release_keys(client_manager: &mut ClientManager, client: ClientHandle) -> (actions: Vec<
    EmulationAction,
>)
    ensures
        final(client_manager)@ == with_keys(old(client_manager)@, client, Set::empty()),
        releases(actions@, pressed_keys_of(old(client_manager)@, client as int), client),
{
    let keys: Vec<u32> = match client_manager.get_mut(client) {
        Some(c) => {
            let keys = keys_in_order(&c.state.pressed_keys);
            c.state.pressed_keys.clear();
            keys
        },
        None => Vec::new(),
    };
    assert(keys@.to_set() =~= pressed_keys_of(old(client_manager)@, client as int));
    let mut actions: Vec<EmulationAction> = Vec::new();
    let mut i: usize = 0;
    while i < keys.len()
        invariant
            i <= keys@.len(),
            actions@.len() == i,
            forall|j: int|
                0 <= j < i ==> actions@[j] == EmulationAction::Consume(key_release(keys@[j]), client),
        decreases keys@.len() - i,
    {
        actions.push(EmulationAction::Consume(InputEvent::release_of(keys[i]), client));
        i += 1;
    }
    actions.push(EmulationAction::Consume(InputEvent::clear_modifiers(), client));
    assert(actions@ =~= release_actions(keys@, client));
    actions
}

/// The registry after every key of every peer below slot `bound` was released.
pub open spec fn released_below(reg: RegistryView, bound: int) -> RegistryView {
    Seq::new(
        reg.len(),
        |h: int|
            if h < bound && reg[h] is Some {
                with_keys(reg, h as ClientHandle, Set::empty())[h]
            } else {
                reg[h]
            },
    )
}

/// `actions` release, for each registered peer below slot `bound` in
/// ascending order, each of its held keys once and then clear its modifiers.
pub open spec fn releases_below(actions: Seq<EmulationAction>, reg: RegistryView, bound: int) -> bool
    decreases bound,
{
    if bound <= 0 {
        actions.len() == 0
    } else if !has_client(reg, bound - 1) {
        releases_below(actions, reg, bound - 1)
    } else {
        exists|cut: int|
            0 <= cut <= actions.len() && releases_below(
                #[trigger] actions.take(cut),
                reg,
                bound - 1,
            ) && releases(
                actions.skip(cut),
                pressed_keys_of(reg, bound - 1),
                (bound - 1) as ClientHandle,
            )
    }
}

/// Slots that hold no peer add nothing to what is released.
pub proof fn lemma_releases_below_vacant(
    actions: Seq<EmulationAction>,
    reg: RegistryView,
    low: int,
    high: int,
)
    requires
        low <= high,
        releases_below(actions, reg, low),
        forall|h: int| low <= h < high ==> !has_client(reg, h),
    ensures
        releases_below(actions, reg, high),
    decreases high - low,
{
    if low < high {
        lemma_releases_below_vacant(actions, reg, low, high - 1);
    }
}

/// Releases every key of every registered peer.
///
/// The peers are gone through in ascending order of their handles; for each,
/// the result holds what [`release_keys`] returns for it.
pub fn release_all_keys(server: &mut Server) -> (actions: Vec<EmulationAction>)
    ensures
        final(server)@ == (ServerView {
            clients: released_below(old(server)@.clients, old(server)@.clients.len() as int),
            ..old(server)@
        }),
        releases_below(actions@, old(server)@.clients, old(server)@.clients.len() as int),
        old(server)@.clients.len() <= usize::MAX,
{
    let ghost before = server@;
    let ghost reg = server@.clients;
    let clients = server.client_manager.get_client_states();
    let mut actions: Vec<EmulationAction> = Vec::new();
    let mut i: usize = 0;
    assert(server@.clients =~= released_below(reg, 0));
    while i < clients.len()
        invariant
            i <= clients@.len(),
            reg == before.clients,
            reg.len() <= usize::MAX,
            lists_clients(clients@, reg, false),
            server@ == (ServerView {
                clients: released_below(reg, if i == 0 { 0 } else { clients@[i - 1] + 1 }),
                ..before
            }),
            releases_below(actions@, reg, if i == 0 { 0 } else { clients@[i - 1] + 1 }),
        decreases clients@.len() - i,
    {
        let client = clients[i];
        let ghost done: int = if i == 0 { 0 } else { clients@[i - 1] + 1 };
        let ghost soon = actions@;
        let ghost current = server@.clients;
        proof {
            assert(crate::client::listed(reg, clients@[i as int] as int, false));
            assert forall|h: int| done <= h < client implies !has_client(reg, h) by {
                if has_client(reg, h) {
                    assert(crate::client::listed(reg, h, false));
                    let k = choose|k: int| 0 <= k < clients@.len() && clients@[k] == h as ClientHandle;
                    if k < i {
                        if k < i - 1 {
                            assert(clients@[k] < clients@[i - 1]);
                        }
                    } else if k > i {
                        assert(clients@[i as int] < clients@[k]);
                    }
                }
            }
            lemma_releases_below_vacant(soon, reg, done, client as int);
            assert(pressed_keys_of(current, client as int) == pressed_keys_of(reg, client as int));
        }
        let mut released = release_keys(&mut server.client_manager, client);
        let ghost tail = released@;
        actions.append(&mut released);
        proof {
            assert(actions@.take(soon.len() as int) =~= soon);
            assert(actions@.skip(soon.len() as int) =~= tail);
            assert(server@.clients =~= released_below(reg, client + 1));
        }
        i += 1;
    }
    proof {
        let done: int = if i == 0 { 0 } else { clients@[i - 1] + 1 };
        assert forall|h: int| done <= h < reg.len() implies !has_client(reg, h) by {
            if has_client(reg, h) {
                assert(crate::client::listed(reg, h, false));
                let k = choose|k: int| 0 <= k < clients@.len() && clients@[k] == h as ClientHandle;
                if k < i - 1 {
                    assert(clients@[k] < clients@[i - 1]);
                }
            }
        }
        if i > 0 {
            assert(crate::client::listed(reg, clients@[i - 1] as int, false));
        }
        lemma_releases_below_vacant(actions@, reg, done, reg.len() as int);
        assert(released_below(reg, done) =~= released_below(reg, reg.len() as int));
    }
    actions
}

/// What receiving an event from `handle` does while peers' input is
/// emulated: a key event is recorded and forwarded unless it is a duplicate,
/// with the timer restarted while a key is held; any other input is
/// forwarded; anything else is nothing to the backend.
pub open spec fn forwarded(pre: ServerView, handle: ClientHandle, event: ProtoEvent) -> (
    ServerView,
    Seq<EmulationAction>,
) {
    match event {
        ProtoEvent::Input(InputEvent::Keyboard(KeyboardEvent::Key { time, key, state })) => {
            let held = pressed_keys_of(pre.clients, handle as int);
            let known = has_client(pre.clients, handle as int);
            let timer = if known && !keys_after(held, key, state).is_empty() {
                seq![EmulationAction::RestartPingTimer]
            } else {
                Seq::empty()
            };
            let consume = if known && !is_duplicate(held, key, state) {
                seq![EmulationAction::Consume(event->Input_0, handle)]
            } else {
                Seq::empty()
            };
            (
                ServerView {
                    clients: with_keys(pre.clients, handle, keys_after(held, key, state)),
                    ..pre
                },
                timer + consume,
            )
        },
        ProtoEvent::Input(input) => (pre, seq![EmulationAction::Consume(input, handle)]),
        _ => (pre, Seq::empty()),
    }
}

/// What an event from `handle` does, by the global mode.
///
/// While sending, a leave is redundant and ignored; anything else turns the
/// mode to receiving, has capture released, and is then treated as while
/// receiving. While a leave is awaited, the leave turns the mode to sending,
/// an enter turns it to receiving and has capture released, and everything
/// else is dropped.
pub open spec fn by_mode(pre: ServerView, handle: ClientHandle, event: ProtoEvent) -> (
    ServerView,
    Seq<EmulationAction>,
) {
    match pre.mode {
        Mode::Sending => {
            if event is Leave {
                (pre, Seq::empty())
            } else {
                let (post, actions) = forwarded(
                    ServerView { mode: Mode::Receiving, ..pre },
                    handle,
                    event,
                );
                (post, seq![EmulationAction::ReleaseCapture] + actions)
            }
        },
        Mode::Receiving => forwarded(pre, handle, event),
        Mode::AwaitingLeave => {
            match event {
                ProtoEvent::Leave => (ServerView { mode: Mode::Sending, ..pre }, Seq::empty()),
                ProtoEvent::Enter(_) => (
                    ServerView { mode: Mode::Receiving, ..pre },
                    seq![EmulationAction::ReleaseCapture],
                ),
                _ => (pre, Seq::empty()),
            }
        },
    }
}

/// What an event from the known peer `handle` at `addr` does: a pong is
/// nothing, a ping is answered, a disconnect releases the peer's keys, an
/// enter is answered with a leave, and enter and everything else then goes by
/// the global mode.
pub open spec fn dispatched(
    pre: ServerView,
    handle: ClientHandle,
    event: ProtoEvent,
    addr: SocketAddress,
    post: ServerView,
    actions: Seq<EmulationAction>,
) -> bool {
    match event {
        ProtoEvent::Pong => post == pre && actions == Seq::<EmulationAction>::empty(),
        ProtoEvent::Ping => post == pre && actions == seq![
            EmulationAction::Send(ProtoEvent::Pong, addr),
        ],
        ProtoEvent::Disconnect => {
            &&& post == ServerView { clients: with_keys(pre.clients, handle, Set::empty()), ..pre }
            &&& releases(actions, pressed_keys_of(pre.clients, handle as int), handle)
        },
        _ => {
            let reply = if event is Enter {
                seq![EmulationAction::Send(ProtoEvent::Leave, addr)]
            } else {
                Seq::empty()
            };
            &&& post == by_mode(pre, handle, event).0
            &&& actions == reply + by_mode(pre, handle, event).1
        },
    }
}

/// What a datagram `event` from `addr` does to the context and to the
/// ignored-address slot, and the actions it calls for.
///
/// From an address that belongs to no peer nothing changes but the slot, and
/// a warning is due unless the slot already held the address. Otherwise the
/// peer is noted as heard from, the slot is emptied, and the event is
/// dispatched.
pub open spec fn udp_rx(
    pre: ServerView,
    ignored: Option<SocketAddress>,
    event: ProtoEvent,
    addr: SocketAddress,
    post: ServerView,
    post_ignored: Option<SocketAddress>,
    actions: Seq<EmulationAction>,
) -> bool {
    match lookup(pre.clients, addr) {
        None => {
            &&& post == pre
            &&& post_ignored == Some(addr)
            &&& actions == if ignored == Some(addr) {
                Seq::<EmulationAction>::empty()
            } else {
                seq![EmulationAction::LogIgnored(addr)]
            }
        },
        Some(handle) => {
            &&& post_ignored == None::<SocketAddress>
            &&& dispatched(
                ServerView { clients: heard_from(pre.clients, handle, addr), ..pre },
                handle,
                event,
                addr,
                post,
                actions,
            )
        },
    }
}

/// Handles an event from `handle` while peers' input is emulated, adding the
/// actions it calls for to `actions`.
fn forward(
    server: &mut Server,
    handle: ClientHandle,
    event: ProtoEvent,
    actions: &mut Vec<EmulationAction>,
)
    ensures
        final(server)@ == forwarded(old(server)@, handle, event).0,
        final(actions)@ == old(actions)@ + forwarded(old(server)@, handle, event).1,
{
    match event {
        ProtoEvent::Input(input) => {
            let ignore_event = match input {
                InputEvent::Keyboard(KeyboardEvent::Key { time: _, key, state }) => {
                    let (ignore_event, restart_timer) = update_client_keys(
                        &mut server.client_manager,
                        handle,
                        key,
                        state,
                    );
                    if restart_timer {
                        actions.push(EmulationAction::RestartPingTimer);
                    }
                    ignore_event
                },
                _ => false,
            };
            if !ignore_event {
                actions.push(EmulationAction::Consume(input, handle));
            }
        },
        _ => {},
    }
}

/// Handles one datagram: `event.0` as it arrived from `event.1`.
///
/// The context and the ignored-address slot change, and the result holds the
/// actions to perform, as [`udp_rx`] says.
pub fn handle_udp_rx(
    server: &mut Server,
    last_ignored: &mut Option<SocketAddress>,
    event: (ProtoEvent, SocketAddress),
) -> (actions: Vec<EmulationAction>)
    ensures
        udp_rx(
            old(server)@,
            *old(last_ignored),
            event.0,
            event.1,
            final(server)@,
            *final(last_ignored),
            actions@,
        ),
{
    let (event, addr) = event;
    let mut actions: Vec<EmulationAction> = Vec::new();

    // the peer that the address belongs to
    let (found, report) = activate_client_if_exists(&mut server.client_manager, addr, last_ignored);
    let handle = match found {
        Some(handle) => handle,
        None => {
            if report {
                actions.push(EmulationAction::LogIgnored(addr));
            }
            return actions;
        },
    };
    let ghost heard = server@;

    match event {
        ProtoEvent::Pong => {},
        ProtoEvent::Ping => {
            actions.push(EmulationAction::Send(ProtoEvent::Pong, addr));
        },
        ProtoEvent::Disconnect => {
            let mut released = release_keys(&mut server.client_manager, handle);
            actions.append(&mut released);
        },
        _ => {
            // an enter is answered at once, whatever the mode
            if let ProtoEvent::Enter(_) = event {
                actions.push(EmulationAction::Send(ProtoEvent::Leave, addr));
            }
            let ghost reply = actions@;
            match server.state {
                Mode::Sending => {
                    if let ProtoEvent::Leave = event {
                        // sent more than once for redundancy
                    } else {
                        // any other event from a peer ends sending
                        server.state = Mode::Receiving;
                        actions.push(EmulationAction::ReleaseCapture);
                        forward(server, handle, event, &mut actions);
                    }
                },
                Mode::Receiving => {
                    forward(server, handle, event, &mut actions);
                },
                Mode::AwaitingLeave => {
                    // events still on their way are dropped until the peer
                    // has answered the enter with a leave
                    match event {
                        ProtoEvent::Leave => {
                            server.state = Mode::Sending;
                        },
                        ProtoEvent::Enter(_) => {
                            server.state = Mode::Receiving;
                            actions.push(EmulationAction::ReleaseCapture);
                        },
                        _ => {},
                    }
                },
            }
            assert(actions@ =~= reply + by_mode(heard, handle, event).1);
        },
    }
    actions
}

/// A request to the emulation controller from its supervisor.
#[derive(Clone, Copy, Debug, PartialEq, Eq, Structural)]
pub enum EmulationEvent {
    /// A peer was added.
    Create(ClientHandle),
    /// A peer was removed.
    Destroy(ClientHandle),
    /// The keys held for a peer are to be released.
    ReleaseKeys(ClientHandle),
}

/// What a running session can be woken by.
#[derive(Clone, Copy, Debug, PartialEq, Eq, Structural)]
pub enum SessionInput {
    /// A datagram arrived.
    Datagram(ProtoEvent, SocketAddress),
    /// The transport reported an error instead of a datagram.
    NetworkError,
    /// The supervisor asks for something.
    Request(EmulationEvent),
    /// Shutdown was requested.
    Cancelled,
}

/// What `input` does to a running session: to the context, to the
/// ignored-address slot, the actions it calls for, and whether the session
/// is over.
pub open spec fn session_step(
    pre: ServerView,
    ignored: Option<SocketAddress>,
    input: SessionInput,
    post: ServerView,
    post_ignored: Option<SocketAddress>,
    actions: Seq<EmulationAction>,
    finished: bool,
) -> bool {
    match input {
        SessionInput::Datagram(event, addr) => {
            &&& udp_rx(pre, ignored, event, addr, post, post_ignored, actions)
            &&& !finished
        },
        SessionInput::NetworkError => {
            &&& post == pre
            &&& post_ignored == ignored
            &&& actions == Seq::<EmulationAction>::empty()
            &&& !finished
        },
        SessionInput::Request(EmulationEvent::Create(handle)) => {
            &&& post == pre
            &&& post_ignored == ignored
            &&& actions == seq![EmulationAction::Create(handle)]
            &&& !finished
        },
        SessionInput::Request(EmulationEvent::Destroy(handle)) => {
            &&& post == pre
            &&& post_ignored == ignored
            &&& actions == seq![EmulationAction::Destroy(handle)]
            &&& !finished
        },
        SessionInput::Request(EmulationEvent::ReleaseKeys(client)) => {
            &&& post == ServerView { clients: with_keys(pre.clients, client, Set::empty()), ..pre }
            &&& post_ignored == ignored
            &&& releases(actions, pressed_keys_of(pre.clients, client as int), client)
            &&& !finished
        },
        SessionInput::Cancelled => {
            &&& post == pre
            &&& post_ignored == ignored
            &&& actions == Seq::<EmulationAction>::empty()
            &&& finished
        },
    }
}

/// Takes a running session one step: handles whatever woke it.
///
/// The second result says whether the session is over.
pub fn do_emulation_session(
    server: &mut Server,
    last_ignored: &mut Option<SocketAddress>,
    input: SessionInput,
) -> (res: (Vec<EmulationAction>, bool))
    ensures
        session_step(
            old(server)@,
            *old(last_ignored),
            input,
            final(server)@,
            *final(last_ignored),
            res.0@,
            res.1,
        ),
{
    match input {
        SessionInput::Datagram(event, addr) => {
            (handle_udp_rx(server, last_ignored, (event, addr)), false)
        },
        SessionInput::NetworkError => (Vec::new(), false),
        SessionInput::Request(request) => {
            let actions = match request {
                EmulationEvent::Create(handle) => {
                    let mut actions: Vec<EmulationAction> = Vec::new();
                    actions.push(EmulationAction::Create(handle));
                    actions
                },
                EmulationEvent::Destroy(handle) => {
                    let mut actions: Vec<EmulationAction> = Vec::new();
                    actions.push(EmulationAction::Destroy(handle));
                    actions
                },
                EmulationEvent::ReleaseKeys(client) => release_keys(
                    &mut server.client_manager,
                    client,
                ),
            };
            (actions, false)
        },
        SessionInput::Cancelled => (Vec::new(), true),
    }
}

/// The actions that set the backend up for each of `handles`, in order.
pub open spec fn creations(handles: Seq<ClientHandle>) -> Seq<EmulationAction> {
    Seq::new(handles.len(), |i: int| EmulationAction::Create(handles[i]))
}

/// Begins a session once the backend exists: publishes the status as enabled
/// and sets the backend up for each active peer, in ascending order of
/// their handles.
pub fn begin_emulation(server: &mut Server) -> (actions: Vec<EmulationAction>)
    ensures
        final(server)@ == (ServerView { emulation_status: Status::Enabled, ..old(server)@ }),
        exists|handles: Seq<ClientHandle>|
            lists_clients(handles, old(server)@.clients, true) && actions@ == #[trigger] creations(
                handles,
            ),
{
    server.set_emulation_status(Status::Enabled);
    let handles = server.active_clients();
    let mut actions: Vec<EmulationAction> = Vec::new();
    let mut i: usize = 0;
    while i < handles.len()
        invariant
            i <= handles@.len(),
            actions@.len() == i,
            forall|j: int| 0 <= j < i ==> actions@[j] == EmulationAction::Create(handles@[j]),
        decreases handles@.len() - i,
    {
        actions.push(EmulationAction::Create(handles[i]));
        i += 1;
    }
    assert(actions@ =~= creations(handles@));
    actions
}

/// What the end of a session does: the backend is shut down first, then
/// every key held for any peer is released, and no key is held afterwards.
pub open spec fn torn_down(pre: ServerView, post: ServerView, actions: Seq<EmulationAction>) -> bool {
    &&& post == ServerView {
        clients: released_below(pre.clients, pre.clients.len() as int),
        ..pre
    }
    &&& actions.len() >= 1
    &&& actions[0] == EmulationAction::Terminate
    &&& releases_below(actions.skip(1), pre.clients, pre.clients.len() as int)
}

/// Ends a session, for whatever reason it ended: the backend is shut down,
/// and then every key that is still held is released, peer by peer.
pub fn end_emulation(server: &mut Server) -> (actions: Vec<EmulationAction>)
    ensures
        torn_down(old(server)@, final(server)@, actions@),
        old(server)@.clients.len() <= usize::MAX,
{
    let mut actions: Vec<EmulationAction> = Vec::new();
    actions.push(EmulationAction::Terminate);
    let mut released = release_all_keys(server);
    let ghost all = released@;
    actions.append(&mut released);
    assert(actions@.skip(1) =~= all);
    actions
}

/// Notes that the emulation session has ended: the status is published as
/// disabled. The result says whether the controller is to return at once,
/// which it is when shutdown was requested.
pub fn emulation_stopped(server: &mut Server) -> (stop: bool)
    ensures
        final(server)@ == (ServerView { emulation_status: Status::Disabled, ..old(server)@ }),
        stop == old(server)@.cancelled,
{
    server.set_emulation_status(Status::Disabled);
    server.is_cancelled()
}

/// What the emulation controller does about `event` while it has no
/// session: whatever arrives on the control channel is ignored, being
/// enabled begins a new session, and cancellation ends the controller.
pub fn emulation_task(event: IdleEvent) -> (next: Supervision)
    ensures
        next == match event {
            IdleEvent::Request | IdleEvent::Closed => Supervision::Wait,
            IdleEvent::Enabled => Supervision::Restart,
            IdleEvent::Cancelled => Supervision::Stop,
        },
{
    match event {
        IdleEvent::Request | IdleEvent::Closed => Supervision::Wait,
        IdleEvent::Enabled => Supervision::Restart,
        IdleEvent::Cancelled => Supervision::Stop,
    }
}

/// Why an emulation session ended early. Either way the field holds what
/// the backend said of its failure.
#[derive(Debug, PartialEq, Eq)]
pub enum LanMouseEmulationError {
    /// The backend could not be created.
    Create(String),
    /// The backend could not emulate an event.
    Emulate(String),
}

/// The text that [`LanMouseEmulationError::message`] returns.
pub open spec fn error_message(error: LanMouseEmulationError) -> Seq<char> {
    match error {
        LanMouseEmulationError::Create(reason) => "error creating input-emulation: `"@ + reason@
            + "`"@,
        LanMouseEmulationError::Emulate(reason) => "error emulating input: `"@ + reason@ + "`"@,
    }
}

impl LanMouseEmulationError {
    /// The error in words.
    pub fn message(&self) -> (text: String)
        ensures
            text@ == error_message(*self),
    {
        match self {
            LanMouseEmulationError::Create(reason) => {
                let mut text = String::from_str("error creating input-emulation: `");
                text.append(reason.as_str());
                text.append("`");
                text
            },
            LanMouseEmulationError::Emulate(reason) => {
                let mut text = String::from_str("error emulating input: `");
                text.append(reason.as_str());
                text.append("`");
                text
            },
        }
    }
}

} // verus!
