//! What holds of the emulation controller over whole sessions: keys that
//! were pressed are released, duplicates never reach the backend, events in
//! flight are dropped while a leave is awaited, and an address keeps
//! belonging to the peer it belonged to.

use crate::client::{
    has_client, lemma_lookup_same_routes, lookup, pressed_keys_of, routes, RegistryView,
};
use crate::emulation::{
    by_mode, dispatched, forwarded, heard_from, release_actions, released_below, releases,
    releases_below, session_step, torn_down, udp_rx, with_keys, EmulationAction,
    EmulationEvent, SessionInput,
};
use crate::event::{ClientHandle, InputEvent, KeyboardEvent, ProtoEvent, SocketAddress};
use crate::server::{Mode, ServerView};
use vstd::prelude::*;

verus! {

/// Whether `action` hands the backend a press of `key` for `client`.
pub open spec fn is_key_press(action: EmulationAction, client: ClientHandle, key: u32) -> bool {
    match action {
        EmulationAction::Consume(
            InputEvent::Keyboard(KeyboardEvent::Key { time, key: k, state }),
            c,
        ) => c == client && k == key && state != 0,
        _ => false,
    }
}

/// Whether `action` hands the backend a release of `key` for `client`.
pub open spec fn is_key_release(action: EmulationAction, client: ClientHandle, key: u32) -> bool {
    match action {
        EmulationAction::Consume(
            InputEvent::Keyboard(KeyboardEvent::Key { time, key: k, state }),
            c,
        ) => c == client && k == key && state == 0,
        _ => false,
    }
}

/// How many presses of `key` for `client` the backend is handed by `actions`.
pub open spec fn presses(actions: Seq<EmulationAction>, client: ClientHandle, key: u32) -> nat
    decreases actions.len(),
{
    if actions.len() == 0 {
        0
    } else {
        presses(actions.drop_last(), client, key) + if is_key_press(actions.last(), client, key) {
            1nat
        } else {
            0nat
        }
    }
}

/// How many releases of `key` for `client` the backend is handed by `actions`.
pub open spec fn key_releases(actions: Seq<EmulationAction>, client: ClientHandle, key: u32) -> nat
    decreases actions.len(),
{
    if actions.len() == 0 {
        0
    } else {
        key_releases(actions.drop_last(), client, key) + if is_key_release(
            actions.last(),
            client,
            key,
        ) {
            1nat
        } else {
            0nat
        }
    }
}

/// One where `key` is held for `client`, zero where it is not.
pub open spec fn held(reg: RegistryView, client: ClientHandle, key: u32) -> nat {
    if pressed_keys_of(reg, client as int).contains(key) {
        1
    } else {
        0
    }
}

/// One where `key` is held for `client` in exactly one of the two registries.
pub open spec fn toggled(before: RegistryView, after: RegistryView, client: ClientHandle, key: u32) -> nat {
    if held(before, client, key) != held(after, client, key) {
        1
    } else {
        0
    }
}

/// Counting goes through concatenation.
pub proof fn lemma_counts_add(
    a: Seq<EmulationAction>,
    b: Seq<EmulationAction>,
    client: ClientHandle,
    key: u32,
)
    ensures
        presses(a + b, client, key) == presses(a, client, key) + presses(b, client, key),
        key_releases(a + b, client, key) == key_releases(a, client, key) + key_releases(
            b,
            client,
            key,
        ),
    decreases b.len(),
{
    if b.len() == 0 {
        assert(a + b =~= a);
    } else {
        assert((a + b).drop_last() =~= a + b.drop_last());
        lemma_counts_add(a, b.drop_last(), client, key);
    }
}

/// What a single action counts for.
pub proof fn lemma_counts_one(action: EmulationAction, client: ClientHandle, key: u32)
    ensures
        presses(seq![action], client, key) == (if is_key_press(action, client, key) {
            1nat
        } else {
            0nat
        }),
        key_releases(seq![action], client, key) == (if is_key_release(action, client, key) {
            1nat
        } else {
            0nat
        }),
{
    let none = Seq::<EmulationAction>::empty();
    assert(seq![action].drop_last() =~= none);
    assert(seq![action].last() == action);
    assert(presses(none, client, key) == 0);
    assert(key_releases(none, client, key) == 0);
}

/// What the first `n` actions of a release of `keys` count for: no press,
/// and one release of each key among the first `n`.
proof fn lemma_release_prefix(
    keys: Seq<u32>,
    owner: ClientHandle,
    n: int,
    client: ClientHandle,
    key: u32,
)
    requires
        keys.no_duplicates(),
        0 <= n <= keys.len(),
    ensures
        presses(release_actions(keys, owner).take(n), client, key) == 0,
        key_releases(release_actions(keys, owner).take(n), client, key) == (if client == owner
            && keys.take(n).contains(key) {
            1nat
        } else {
            0nat
        }),
    decreases n,
{
    let all = release_actions(keys, owner);
    if n > 0 {
        lemma_release_prefix(keys, owner, n - 1, client, key);
        assert(all.take(n).drop_last() =~= all.take(n - 1));
        assert(all.take(n).last() == all[n - 1]);
        let shorter = keys.take(n - 1);
        let longer = keys.take(n);
        assert(longer =~= shorter.push(keys[n - 1]));
        if shorter.contains(key) {
            let j = choose|j: int| 0 <= j < shorter.len() && shorter[j] == key;
            assert(keys[j] == key);
            assert(keys[n - 1] != key);
            assert(longer[j] == key);
        } else if keys[n - 1] == key {
            assert(longer[n - 1] == key);
        } else {
            if longer.contains(key) {
                let j = choose|j: int| 0 <= j < longer.len() && longer[j] == key;
                assert(shorter[j] == key);
            }
        }
    } else {
        assert(!keys.take(0).contains(key));
    }
}

/// What a release of the keys held for a peer counts for: no press, and one
/// release of each key that was held.
pub proof fn lemma_release_counts(
    actions: Seq<EmulationAction>,
    pressed: Set<u32>,
    owner: ClientHandle,
    client: ClientHandle,
    key: u32,
)
    requires
        releases(actions, pressed, owner),
    ensures
        presses(actions, client, key) == 0,
        key_releases(actions, client, key) == (if client == owner && pressed.contains(key) {
            1nat
        } else {
            0nat
        }),
{
    let keys = choose|keys: Seq<u32>|
        keys.no_duplicates() && keys.to_set() == pressed && actions == #[trigger] release_actions(
            keys,
            owner,
        );
    let n = keys.len() as int;
    lemma_release_prefix(keys, owner, n, client, key);
    assert(actions.drop_last() =~= actions.take(n));
    assert(keys.take(n) =~= keys);
    assert(keys.contains(key) <==> keys.to_set().contains(key));
}

/// What a release of all keys below slot `bound` counts for: no press, and
/// one release of each key that was held for a peer below `bound`.
pub proof fn lemma_release_all_counts(
    actions: Seq<EmulationAction>,
    reg: RegistryView,
    bound: int,
    client: ClientHandle,
    key: u32,
)
    requires
        releases_below(actions, reg, bound),
        bound <= reg.len() <= usize::MAX,
    ensures
        presses(actions, client, key) == 0,
        key_releases(actions, client, key) == (if client < bound {
            held(reg, client, key)
        } else {
            0nat
        }),
    decreases bound,
{
    if bound <= 0 {
    } else if !has_client(reg, bound - 1) {
        lemma_release_all_counts(actions, reg, bound - 1, client, key);
    } else {
        let owner = (bound - 1) as ClientHandle;
        let cut = choose|cut: int|
            0 <= cut <= actions.len() && releases_below(
                #[trigger] actions.take(cut),
                reg,
                bound - 1,
            ) && releases(actions.skip(cut), pressed_keys_of(reg, bound - 1), owner);
        lemma_release_all_counts(actions.take(cut), reg, bound - 1, client, key);
        lemma_release_counts(
            actions.skip(cut),
            pressed_keys_of(reg, bound - 1),
            owner,
            client,
            key,
        );
        lemma_counts_add(actions.take(cut), actions.skip(cut), client, key);
        assert(actions.take(cut) + actions.skip(cut) =~= actions);
    }
}

/// The backend is handed exactly what changes which keys are held: with what
/// was held before, the presses make up the releases and what is held after,
/// and each change of whether `key` is held hands the backend one event.
pub open spec fn balanced(
    before: RegistryView,
    after: RegistryView,
    actions: Seq<EmulationAction>,
    client: ClientHandle,
    key: u32,
) -> bool {
    &&& presses(actions, client, key) + held(before, client, key) == key_releases(
        actions,
        client,
        key,
    ) + held(after, client, key)
    &&& presses(actions, client, key) + key_releases(actions, client, key) == toggled(
        before,
        after,
        client,
        key,
    )
}

proof fn lemma_forwarded_balanced(
    pre: ServerView,
    handle: ClientHandle,
    event: ProtoEvent,
    client: ClientHandle,
    key: u32,
)
    ensures
        balanced(
            pre.clients,
            forwarded(pre, handle, event).0.clients,
            forwarded(pre, handle, event).1,
            client,
            key,
        ),
        forwarded(pre, handle, event).0.clients.len() == pre.clients.len(),
{
    let none = Seq::<EmulationAction>::empty();
    match event {
        ProtoEvent::Input(InputEvent::Keyboard(KeyboardEvent::Key { time, key: k, state })) => {
            let known = has_client(pre.clients, handle as int);
            let held_keys = pressed_keys_of(pre.clients, handle as int);
            let after = crate::emulation::keys_after(held_keys, k, state);
            let timer = if known && !after.is_empty() {
                seq![EmulationAction::RestartPingTimer]
            } else {
                none
            };
            let consume = if known && !crate::emulation::is_duplicate(held_keys, k, state) {
                seq![EmulationAction::Consume(event->Input_0, handle)]
            } else {
                none
            };
            lemma_counts_one(EmulationAction::RestartPingTimer, client, key);
            lemma_counts_one(EmulationAction::Consume(event->Input_0, handle), client, key);
            lemma_counts_add(timer, consume, client, key);
            assert(forwarded(pre, handle, event).1 == timer + consume);
        },
        ProtoEvent::Input(input) => {
            lemma_counts_one(EmulationAction::Consume(input, handle), client, key);
        },
        _ => {},
    }
}

proof fn lemma_by_mode_balanced(
    pre: ServerView,
    handle: ClientHandle,
    event: ProtoEvent,
    client: ClientHandle,
    key: u32,
)
    ensures
        balanced(
            pre.clients,
            by_mode(pre, handle, event).0.clients,
            by_mode(pre, handle, event).1,
            client,
            key,
        ),
        by_mode(pre, handle, event).0.clients.len() == pre.clients.len(),
{
    lemma_counts_one(EmulationAction::ReleaseCapture, client, key);
    match pre.mode {
        Mode::Sending => {
            if !(event is Leave) {
                let turned = ServerView { mode: Mode::Receiving, ..pre };
                lemma_forwarded_balanced(turned, handle, event, client, key);
                lemma_counts_add(
                    seq![EmulationAction::ReleaseCapture],
                    forwarded(turned, handle, event).1,
                    client,
                    key,
                );
            }
        },
        Mode::Receiving => {
            lemma_forwarded_balanced(pre, handle, event, client, key);
        },
        Mode::AwaitingLeave => {},
    }
}

proof fn lemma_dispatched_balanced(
    pre: ServerView,
    handle: ClientHandle,
    event: ProtoEvent,
    addr: SocketAddress,
    post: ServerView,
    actions: Seq<EmulationAction>,
    client: ClientHandle,
    key: u32,
)
    requires
        dispatched(pre, handle, event, addr, post, actions),
    ensures
        balanced(pre.clients, post.clients, actions, client, key),
        post.clients.len() == pre.clients.len(),
{
    let none = Seq::<EmulationAction>::empty();
    match event {
        ProtoEvent::Pong => {},
        ProtoEvent::Ping => {
            lemma_counts_one(EmulationAction::Send(ProtoEvent::Pong, addr), client, key);
        },
        ProtoEvent::Disconnect => {
            lemma_release_counts(
                actions,
                pressed_keys_of(pre.clients, handle as int),
                handle,
                client,
                key,
            );
        },
        _ => {
            let reply = if event is Enter {
                seq![EmulationAction::Send(ProtoEvent::Leave, addr)]
            } else {
                none
            };
            lemma_counts_one(EmulationAction::Send(ProtoEvent::Leave, addr), client, key);
            lemma_by_mode_balanced(pre, handle, event, client, key);
            lemma_counts_add(reply, by_mode(pre, handle, event).1, client, key);
        },
    }
}

/// In every step of a session the backend is handed exactly what changes
/// which keys are held, and the registry keeps its slots.
pub proof fn lemma_step_balanced(
    pre: ServerView,
    ignored: Option<SocketAddress>,
    input: SessionInput,
    post: ServerView,
    post_ignored: Option<SocketAddress>,
    actions: Seq<EmulationAction>,
    finished: bool,
    client: ClientHandle,
    key: u32,
)
    requires
        session_step(pre, ignored, input, post, post_ignored, actions, finished),
    ensures
        balanced(pre.clients, post.clients, actions, client, key),
        post.clients.len() == pre.clients.len(),
{
    match input {
        SessionInput::Datagram(event, addr) => {
            match lookup(pre.clients, addr) {
                None => {
                    lemma_counts_one(EmulationAction::LogIgnored(addr), client, key);
                },
                Some(handle) => {
                    let heard = ServerView {
                        clients: heard_from(pre.clients, handle, addr),
                        ..pre
                    };
                    lemma_dispatched_balanced(
                        heard,
                        handle,
                        event,
                        addr,
                        post,
                        actions,
                        client,
                        key,
                    );
                    assert(pressed_keys_of(heard.clients, client as int) == pressed_keys_of(
                        pre.clients,
                        client as int,
                    ));
                },
            }
        },
        SessionInput::NetworkError => {},
        SessionInput::Request(EmulationEvent::Create(handle)) => {
            lemma_counts_one(EmulationAction::Create(handle), client, key);
        },
        SessionInput::Request(EmulationEvent::Destroy(handle)) => {
            lemma_counts_one(EmulationAction::Destroy(handle), client, key);
        },
        SessionInput::Request(EmulationEvent::ReleaseKeys(owner)) => {
            lemma_release_counts(
                actions,
                pressed_keys_of(pre.clients, owner as int),
                owner,
                client,
                key,
            );
        },
        SessionInput::Cancelled => {},
    }
}

/// One step of a session as it was taken: what woke the session, and what
/// came of it.
pub struct SessionStep {
    pub input: SessionInput,
    pub post: ServerView,
    pub post_ignored: Option<SocketAddress>,
    pub actions: Seq<EmulationAction>,
    pub finished: bool,
}

/// The context after `steps` were taken from `pre`.
pub open spec fn context_after(pre: ServerView, steps: Seq<SessionStep>) -> ServerView {
    if steps.len() == 0 {
        pre
    } else {
        steps.last().post
    }
}

/// The ignored-address slot after `steps` were taken from `ignored`.
pub open spec fn ignored_after(ignored: Option<SocketAddress>, steps: Seq<SessionStep>) -> Option<
    SocketAddress,
> {
    if steps.len() == 0 {
        ignored
    } else {
        steps.last().post_ignored
    }
}

/// Whether `steps` is what a session does that starts from `pre` and
/// `ignored`: each step is taken from where the one before it ended.
pub open spec fn is_session(
    pre: ServerView,
    ignored: Option<SocketAddress>,
    steps: Seq<SessionStep>,
) -> bool
    decreases steps.len(),
{
    steps.len() == 0 || {
        let before = steps.drop_last();
        let step = steps.last();
        &&& is_session(pre, ignored, before)
        &&& session_step(
            context_after(pre, before),
            ignored_after(ignored, before),
            step.input,
            step.post,
            step.post_ignored,
            step.actions,
            step.finished,
        )
    }
}

/// All actions of `steps`, in the order in which they were called for.
pub open spec fn session_actions(steps: Seq<SessionStep>) -> Seq<EmulationAction>
    decreases steps.len(),
{
    if steps.len() == 0 {
        Seq::empty()
    } else {
        session_actions(steps.drop_last()) + steps.last().actions
    }
}

/// In how many of `steps` it changed whether `key` is held for `client`.
pub open spec fn session_toggles(
    pre: ServerView,
    steps: Seq<SessionStep>,
    client: ClientHandle,
    key: u32,
) -> nat
    decreases steps.len(),
{
    if steps.len() == 0 {
        0
    } else {
        session_toggles(pre, steps.drop_last(), client, key) + toggled(
            context_after(pre, steps.drop_last()).clients,
            steps.last().post.clients,
            client,
            key,
        )
    }
}

/// Duplicate key events never reach the backend.
///
/// Over any session, for any peer and any key: the presses handed to the
/// backend, with the key counted once where it was held at the start, are as
/// many as the releases handed to it, with the key counted once where it is
/// held at the end. So where the key is held neither at the start nor at the
/// end, or at both, presses and releases are equal in number; and where it
/// is not held at the start, it is held at the end exactly if the backend
/// was handed an odd number of presses and releases of it. Neither number
/// exceeds the number of steps in which it changed whether the key is held.
/// The registry keeps its slots throughout.
pub proof fn law_double_key_filter(
    pre: ServerView,
    ignored: Option<SocketAddress>,
    steps: Seq<SessionStep>,
    client: ClientHandle,
    key: u32,
)
    requires
        is_session(pre, ignored, steps),
    ensures
        presses(session_actions(steps), client, key) + held(pre.clients, client, key)
            == key_releases(session_actions(steps), client, key) + held(
            context_after(pre, steps).clients,
            client,
            key,
        ),
        held(pre.clients, client, key) == held(context_after(pre, steps).clients, client, key)
            ==> presses(session_actions(steps), client, key) == key_releases(
            session_actions(steps),
            client,
            key,
        ),
        held(pre.clients, client, key) == 0 ==> (held(
            context_after(pre, steps).clients,
            client,
            key,
        ) == 1 <==> (presses(session_actions(steps), client, key) + key_releases(
            session_actions(steps),
            client,
            key,
        )) % 2 == 1),
        presses(session_actions(steps), client, key) + key_releases(
            session_actions(steps),
            client,
            key,
        ) == session_toggles(pre, steps, client, key),
        presses(session_actions(steps), client, key) <= session_toggles(pre, steps, client, key),
        key_releases(session_actions(steps), client, key) <= session_toggles(
            pre,
            steps,
            client,
            key,
        ),
        context_after(pre, steps).clients.len() == pre.clients.len(),
    decreases steps.len(),
{
    if steps.len() > 0 {
        let before = steps.drop_last();
        let step = steps.last();
        law_double_key_filter(pre, ignored, before, client, key);
        lemma_step_balanced(
            context_after(pre, before),
            ignored_after(ignored, before),
            step.input,
            step.post,
            step.post_ignored,
            step.actions,
            step.finished,
            client,
            key,
        );
        lemma_counts_add(session_actions(before), step.actions, client, key);
    }
}

/// No key stays stuck.
///
/// Take any session, ended by a teardown. Afterwards no key is held for any
/// peer, and for any peer and any key the releases handed to the backend
/// during the session and its teardown are as many as the presses handed to
/// it, with the key counted once where it was already held at the start.
pub proof fn law_no_stuck_keys(
    pre: ServerView,
    ignored: Option<SocketAddress>,
    steps: Seq<SessionStep>,
    post: ServerView,
    teardown: Seq<EmulationAction>,
    client: ClientHandle,
    key: u32,
)
    requires
        pre.clients.len() <= usize::MAX,
        is_session(pre, ignored, steps),
        torn_down(context_after(pre, steps), post, teardown),
    ensures
        pressed_keys_of(post.clients, client as int) == Set::<u32>::empty(),
        presses(session_actions(steps) + teardown, client, key) + held(pre.clients, client, key)
            == key_releases(session_actions(steps) + teardown, client, key),
{
    let end = context_after(pre, steps);
    law_double_key_filter(pre, ignored, steps, client, key);
    lemma_counts_add(session_actions(steps), teardown, client, key);
    let shutdown = seq![EmulationAction::Terminate];
    assert(teardown =~= shutdown + teardown.skip(1));
    lemma_counts_add(shutdown, teardown.skip(1), client, key);
    lemma_counts_one(EmulationAction::Terminate, client, key);
    lemma_release_all_counts(
        teardown.skip(1),
        end.clients,
        end.clients.len() as int,
        client,
        key,
    );
    assert(pressed_keys_of(post.clients, client as int) =~= Set::<u32>::empty());
}

/// Whether `action` is a call of the emulation backend.
pub open spec fn is_backend_call(action: EmulationAction) -> bool {
    action is Consume || action is Create || action is Destroy || action is Terminate
}

/// While a leave is awaited, events in flight are dropped.
///
/// A datagram that arrives while the mode is `AwaitingLeave` calls for no
/// call of the emulation backend and leaves every held key as it is, unless
/// it is a disconnect, which releases the peer's keys in every mode. The
/// mode changes on a leave, to `Sending`, and on an enter, to `Receiving`,
/// and on nothing else.
pub proof fn law_awaiting_leave_drains(
    pre: ServerView,
    ignored: Option<SocketAddress>,
    event: ProtoEvent,
    addr: SocketAddress,
    post: ServerView,
    post_ignored: Option<SocketAddress>,
    actions: Seq<EmulationAction>,
)
    requires
        udp_rx(pre, ignored, event, addr, post, post_ignored, actions),
        pre.mode == Mode::AwaitingLeave,
        event != ProtoEvent::Disconnect,
    ensures
        forall|i: int| 0 <= i < actions.len() ==> !is_backend_call(#[trigger] actions[i]),
        forall|client: int|
            pressed_keys_of(post.clients, client) == #[trigger] pressed_keys_of(
                pre.clients,
                client,
            ),
        post.mode == (if lookup(pre.clients, addr) is None {
            Mode::AwaitingLeave
        } else {
            match event {
                ProtoEvent::Leave => Mode::Sending,
                ProtoEvent::Enter(_) => Mode::Receiving,
                _ => Mode::AwaitingLeave,
            }
        }),
{
    match lookup(pre.clients, addr) {
        None => {},
        Some(handle) => {
            let heard = ServerView { clients: heard_from(pre.clients, handle, addr), ..pre };
            assert forall|client: int|
                pressed_keys_of(post.clients, client) == #[trigger] pressed_keys_of(
                    pre.clients,
                    client,
                ) by {
                assert(pressed_keys_of(heard.clients, client) == pressed_keys_of(
                    pre.clients,
                    client,
                ));
            }
        },
    }
}

/// An address keeps belonging to the peer it belonged to.
///
/// No step of a session changes which peer an address belongs to. And once
/// a datagram from `addr` was handled for a peer, `addr` is that peer's
/// active address and the peer is marked alive: what arrives from `addr`
/// next is handled for the same peer.
pub proof fn law_address_sticks(
    pre: ServerView,
    ignored: Option<SocketAddress>,
    input: SessionInput,
    post: ServerView,
    post_ignored: Option<SocketAddress>,
    actions: Seq<EmulationAction>,
    finished: bool,
    addr: SocketAddress,
)
    requires
        session_step(pre, ignored, input, post, post_ignored, actions, finished),
        pre.clients.len() <= usize::MAX,
    ensures
        lookup(post.clients, addr) == lookup(pre.clients, addr),
        input matches SessionInput::Datagram(_, from) ==> (lookup(pre.clients, from) matches Some(
            handle,
        ) ==> {
            &&& lookup(post.clients, from) == Some(handle)
            &&& has_client(post.clients, handle as int)
            &&& post.clients[handle as int]->0.state.active_addr == Some(from)
            &&& post.clients[handle as int]->0.state.alive
        }),
{
    lemma_step_keeps_routes(pre, ignored, input, post, post_ignored, actions, finished);
    lemma_lookup_same_routes(pre.clients, post.clients, addr, 0);
    match input {
        SessionInput::Datagram(_, from) => {
            lemma_lookup_same_routes(pre.clients, post.clients, from, 0);
            crate::client::lemma_lookup_least(pre.clients, from, 0);
        },
        _ => {},
    }
}

/// No step of a session changes which peers are registered or how they are
/// configured.
pub proof fn lemma_step_keeps_routes(
    pre: ServerView,
    ignored: Option<SocketAddress>,
    input: SessionInput,
    post: ServerView,
    post_ignored: Option<SocketAddress>,
    actions: Seq<EmulationAction>,
    finished: bool,
)
    requires
        session_step(pre, ignored, input, post, post_ignored, actions, finished),
    ensures
        post.clients.len() == pre.clients.len(),
        forall|handle: int|
            has_client(post.clients, handle) == #[trigger] has_client(pre.clients, handle),
        forall|handle: int| #[trigger]
            has_client(pre.clients, handle) ==> post.clients[handle]->0.config
                == pre.clients[handle]->0.config,
        forall|handle: int, addr: SocketAddress|
            routes(post.clients, handle, addr) == #[trigger] routes(pre.clients, handle, addr),
{
}

/// Whether every active address belongs to the peer that has it: whatever
/// arrives from the active address of a peer is handled for that peer.
pub open spec fn active_addresses_route(reg: RegistryView) -> bool {
    forall|handle: int, addr: SocketAddress|
        has_client(reg, handle) && #[trigger] active_is(reg, handle, addr) ==> lookup(reg, addr)
            == Some(handle as ClientHandle)
}

/// Whether `addr` is the active address of `handle`.
pub open spec fn active_is(reg: RegistryView, handle: int, addr: SocketAddress) -> bool {
    has_client(reg, handle) && reg[handle]->0.state.active_addr == Some(addr)
}

/// Active addresses keep belonging to their peers.
///
/// Where every active address belongs to the peer that has it, this is
/// still so after any step of a session.
pub proof fn law_active_addresses_route(
    pre: ServerView,
    ignored: Option<SocketAddress>,
    input: SessionInput,
    post: ServerView,
    post_ignored: Option<SocketAddress>,
    actions: Seq<EmulationAction>,
    finished: bool,
)
    requires
        session_step(pre, ignored, input, post, post_ignored, actions, finished),
        pre.clients.len() <= usize::MAX,
        active_addresses_route(pre.clients),
    ensures
        active_addresses_route(post.clients),
{
    lemma_step_keeps_routes(pre, ignored, input, post, post_ignored, actions, finished);
    assert forall|handle: int, addr: SocketAddress|
        has_client(post.clients, handle) && #[trigger] active_is(
            post.clients,
            handle,
            addr,
        ) implies lookup(post.clients, addr) == Some(handle as ClientHandle) by {
        lemma_lookup_same_routes(pre.clients, post.clients, addr, 0);
        if !active_is(pre.clients, handle, addr) {
            // the address became active in this step: a datagram arrived from it
            match input {
                SessionInput::Datagram(event, from) => {
                    crate::client::lemma_lookup_least(pre.clients, from, 0);
                },
                _ => {},
            }
        }
    }
}

} // verus!
