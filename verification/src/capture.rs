//! The capture controller: the sending half of the handshake between peers.
//!
//! Local input is forwarded to a peer only once the peer has acknowledged
//! that it is ready; until then every event is sent as an enter. Nothing here
//! touches a backend or a connection. Each function changes the shared
//! context and the controller's own state and returns the actions that its
//! caller has to perform, in order.

use crate::client::{has_client, lists_clients, text_view, RegistryView};
use crate::event::{ClientHandle, InputEvent, Position, ProtoEvent};
use crate::server::{position_of, IdleEvent, Server, ServerView, Status, Supervision};
use vstd::prelude::*;

verus! {

/// Identifier of a capture barrier; it is the handle of the peer behind it.
pub type CaptureHandle = ClientHandle;

/// A request to the capture controller from its supervisor.
#[derive(Clone, Copy, Debug, PartialEq, Eq, Structural)]
pub enum CaptureRequest {
    /// Capture must release the pointer.
    Release,
    /// A barrier is to be added.
    Create(CaptureHandle, Position),
    /// A barrier is to be removed.
    Destroy(CaptureHandle),
}

/// Where the outbound handshake stands.
#[derive(Clone, Copy, Debug, PartialEq, Eq, Structural)]
pub enum State {
    /// Nothing is captured.
    Idle,
    /// The pointer has entered a peer, which has not acknowledged yet.
    WaitingForAck,
    /// The peer has acknowledged; input is forwarded.
    Sending,
}

/// What the capture backend reports for a barrier.
#[derive(Clone, Copy, Debug, PartialEq, Eq, Structural)]
pub enum CaptureEvent {
    /// The pointer crossed the barrier.
    Begin,
    /// Input was captured.
    Input(InputEvent),
}

/// What the capture controller asks its caller to do.
#[derive(Clone, Copy, Debug, PartialEq, Eq, Structural)]
pub enum CaptureAction {
    /// Have the backend let go of the input devices.
    Release,
    /// Run the command configured for a peer, detached; the command is what
    /// [`spawn_hook_command`] returns for the peer.
    SpawnHook(ClientHandle),
    /// Send a protocol event to a peer.
    Send(ProtoEvent, ClientHandle),
    /// Warn that capture is released because sending failed.
    LogSendFailure,
    /// Add a barrier to the backend.
    Create(CaptureHandle, Position),
    /// Remove a barrier from the backend.
    Destroy(CaptureHandle),
    /// Shut the backend down.
    Terminate,
}

/// Shortest time between two warnings about a failed send, in milliseconds.
pub const SEND_FAILURE_LOG_INTERVAL: u64 = 500;

/// Whether an action that last ran at `prev` is due again at `now`: it never
/// ran, or more than `interval` has passed since.
pub open spec fn is_due(prev: Option<u64>, now: u64, interval: u64) -> bool {
    match prev {
        None => true,
        Some(at) => now - at > interval,
    }
}

/// Decides whether a rate-limited action runs at `now` and, where it does,
/// notes `now` in `prev` as the time it last ran.
pub fn debounce(prev: &mut Option<u64>, now: u64, interval: u64) -> (run: bool)
    ensures
        run == is_due(*old(prev), now, interval),
        *final(prev) == (if run {
            Some(now)
        } else {
            *old(prev)
        }),
{
    let run = match *prev {
        None => true,
        Some(at) => now > at && now - at > interval,
    };
    if run {
        *prev = Some(now);
    }
    run
}

/// The command configured for `handle`, if it names a registered peer that
/// has one.
pub open spec fn hook_of(reg: RegistryView, handle: ClientHandle) -> Option<Seq<char>> {
    if has_client(reg, handle as int) {
        reg[handle as int]->0.config.cmd
    } else {
        None
    }
}

/// Whether a command is configured for `handle`.
pub open spec fn has_hook(reg: RegistryView, handle: ClientHandle) -> bool {
    hook_of(reg, handle) is Some
}

/// The edge named in the enter sent to `handle`: the one configured for it,
/// and the left one for a handle that names no registered peer.
pub open spec fn enter_position(reg: RegistryView, handle: ClientHandle) -> Position {
    match position_of(reg, handle) {
        Some(pos) => pos,
        None => Position::Left,
    }
}

/// The context after capture was released: no peer is active.
pub open spec fn released(pre: ServerView) -> ServerView {
    ServerView { active: None, ..pre }
}

/// What an event of the capture backend does.
///
/// Where the release latch is set or the release keys are held, the latch is
/// emptied and capture is released; the event is not forwarded. Otherwise a
/// begin makes `handle` the active peer and starts waiting for its
/// acknowledgement, runs its command where it has one, and sends an enter;
/// input is sent as input once the peer has acknowledged, and as an enter
/// before.
pub open spec fn capture_event(
    pre: ServerView,
    state: State,
    handle: CaptureHandle,
    event: CaptureEvent,
    bind_pressed: bool,
) -> (ServerView, State, Seq<CaptureAction>) {
    if pre.should_release || bind_pressed {
        (
            released(ServerView { should_release: false, ..pre }),
            State::Idle,
            seq![CaptureAction::Release],
        )
    } else {
        let enter = ProtoEvent::Enter(enter_position(pre.clients, handle));
        match event {
            CaptureEvent::Begin => (
                ServerView { active: Some(handle), ..pre },
                State::WaitingForAck,
                if has_hook(pre.clients, handle) {
                    seq![CaptureAction::SpawnHook(handle), CaptureAction::Send(enter, handle)]
                } else {
                    seq![CaptureAction::Send(enter, handle)]
                },
            ),
            CaptureEvent::Input(input) => (
                pre,
                state,
                seq![
                    CaptureAction::Send(
                        if state is Sending {
                            ProtoEvent::Input(input)
                        } else {
                            enter
                        },
                        handle,
                    ),
                ],
            ),
        }
    }
}

/// Releases capture: the handshake is idle again, no peer is active, and
/// the backend is to let go.
pub fn release_capture(server: &mut Server, state: &mut State) -> (actions: Vec<CaptureAction>)
    ensures
        final(server)@ == released(old(server)@),
        *final(state) == State::Idle,
        actions@ == seq![CaptureAction::Release],
{
    *state = State::Idle;
    server.set_active(None);
    let mut actions: Vec<CaptureAction> = Vec::new();
    actions.push(CaptureAction::Release);
    actions
}

/// The command that is to be run when capture for `handle` begins: the one
/// configured for it, and none where there is no such peer or it has none.
pub fn spawn_hook_command(server: &Server, handle: ClientHandle) -> (cmd: Option<String>)
    ensures
        text_view(cmd) == hook_of(server@.clients, handle),
{
    match server.client_manager.get(handle) {
        Some(client) => match &client.config.cmd {
            Some(cmd) => Some(cmd.clone()),
            None => None,
        },
        None => None,
    }
}

/// Handles an event of the capture backend for barrier `event.0`.
///
/// `bind_pressed` says whether the backend sees all release keys held.
pub fn handle_capture_event(
    server: &mut Server,
    state: &mut State,
    event: (CaptureHandle, CaptureEvent),
    bind_pressed: bool,
) -> (actions: Vec<CaptureAction>)
    ensures
        (final(server)@, *final(state), actions@) == capture_event(
            old(server)@,
            *old(state),
            event.0,
            event.1,
            bind_pressed,
        ),
{
    let (handle, captured) = event;

    if server.take_release() || bind_pressed {
        return release_capture(server, state);
    }
    let mut actions: Vec<CaptureAction> = Vec::new();
    let position = match server.get_pos(handle) {
        Some(pos) => pos,
        None => Position::Left,
    };
    let outbound = match captured {
        CaptureEvent::Begin => {
            *state = State::WaitingForAck;
            server.set_active(Some(handle));
            if spawn_hook_command(server, handle).is_some() {
                actions.push(CaptureAction::SpawnHook(handle));
            }
            ProtoEvent::Enter(position)
        },
        CaptureEvent::Input(input) => match *state {
            State::Sending => ProtoEvent::Input(input),
            // not acknowledged yet: the enter is repeated
            _ => ProtoEvent::Enter(position),
        },
    };
    actions.push(CaptureAction::Send(outbound, handle));
    actions
}

/// What a protocol event from peer `handle` does to the handshake.
///
/// Only the active peer is listened to: its acknowledgement starts the
/// forwarding of input, its leave releases capture. Everything else is
/// nothing to the capture controller.
pub open spec fn capture_inbound(
    pre: ServerView,
    state: State,
    handle: ClientHandle,
    event: ProtoEvent,
) -> (ServerView, State, Seq<CaptureAction>) {
    if pre.active == Some(handle) {
        match event {
            ProtoEvent::Ack(_) => (pre, State::Sending, Seq::empty()),
            ProtoEvent::Leave => (released(pre), State::Idle, seq![CaptureAction::Release]),
            _ => (pre, state, Seq::empty()),
        }
    } else {
        (pre, state, Seq::empty())
    }
}

/// Handles a protocol event that arrived from peer `event.0`.
pub fn handle_proto_event(
    server: &mut Server,
    state: &mut State,
    event: (ClientHandle, ProtoEvent),
) -> (actions: Vec<CaptureAction>)
    ensures
        (final(server)@, *final(state), actions@) == capture_inbound(
            old(server)@,
            *old(state),
            event.0,
            event.1,
        ),
{
    let (handle, inbound) = event;
    let listening = match server.get_active() {
        Some(active) => handle == active,
        None => false,
    };
    if !listening {
        // only the peer that input is forwarded to is of interest
        return Vec::new();
    }
    match inbound {
        ProtoEvent::Ack(_) => {
            *state = State::Sending;
            Vec::new()
        },
        ProtoEvent::Leave => release_capture(server, state),
        _ => Vec::new(),
    }
}

/// What a request of the supervisor does.
pub open spec fn capture_request(pre: ServerView, state: State, request: CaptureRequest) -> (
    ServerView,
    State,
    Seq<CaptureAction>,
) {
    match request {
        CaptureRequest::Release => (released(pre), State::Idle, seq![CaptureAction::Release]),
        CaptureRequest::Create(handle, pos) => (
            pre,
            state,
            seq![CaptureAction::Create(handle, pos)],
        ),
        CaptureRequest::Destroy(handle) => (pre, state, seq![CaptureAction::Destroy(handle)]),
    }
}

/// Handles a request of the supervisor.
pub fn handle_request(server: &mut Server, state: &mut State, request: CaptureRequest) -> (actions:
    Vec<CaptureAction>)
    ensures
        (final(server)@, *final(state), actions@) == capture_request(
            old(server)@,
            *old(state),
            request,
        ),
{
    match request {
        CaptureRequest::Release => release_capture(server, state),
        CaptureRequest::Create(handle, pos) => {
            let mut actions: Vec<CaptureAction> = Vec::new();
            actions.push(CaptureAction::Create(handle, pos));
            actions
        },
        CaptureRequest::Destroy(handle) => {
            let mut actions: Vec<CaptureAction> = Vec::new();
            actions.push(CaptureAction::Destroy(handle));
            actions
        },
    }
}

/// The actions that a failed send at `now` calls for: a warning, unless one
/// was given within the last [`SEND_FAILURE_LOG_INTERVAL`] milliseconds, and
/// the release of capture.
pub open spec fn send_failure_actions(prev_log: Option<u64>, now: u64) -> Seq<CaptureAction> {
    if is_due(prev_log, now, SEND_FAILURE_LOG_INTERVAL) {
        seq![CaptureAction::LogSendFailure, CaptureAction::Release]
    } else {
        seq![CaptureAction::Release]
    }
}

/// Handles the failure of a send at time `now`, in milliseconds of a clock
/// that does not run backwards: the user gets the input devices back at
/// once, and the warning is rate-limited through `prev_log`.
pub fn handle_send_failure(
    server: &mut Server,
    state: &mut State,
    prev_log: &mut Option<u64>,
    now: u64,
) -> (actions: Vec<CaptureAction>)
    ensures
        final(server)@ == released(old(server)@),
        *final(state) == State::Idle,
        *final(prev_log) == (if is_due(*old(prev_log), now, SEND_FAILURE_LOG_INTERVAL) {
            Some(now)
        } else {
            *old(prev_log)
        }),
        actions@ == send_failure_actions(*old(prev_log), now),
{
    let mut actions: Vec<CaptureAction> = Vec::new();
    if debounce(prev_log, now, SEND_FAILURE_LOG_INTERVAL) {
        actions.push(CaptureAction::LogSendFailure);
    }
    let mut release = release_capture(server, state);
    actions.append(&mut release);
    actions
}

/// What a running capture session can be woken by.
#[derive(Clone, Copy, Debug, PartialEq, Eq, Structural)]
pub enum CaptureInput {
    /// The backend reports an event for a barrier; the flag says whether it
    /// sees all release keys held.
    Event(CaptureHandle, CaptureEvent, bool),
    /// The backend's stream of events has ended.
    EndOfStream,
    /// A protocol event arrived from a peer.
    Inbound(ClientHandle, ProtoEvent),
    /// The supervisor asks for something.
    Request(CaptureRequest),
    /// The last send failed, at this time in milliseconds.
    SendFailed(u64),
    /// The control channel was closed.
    Closed,
    /// Shutdown was requested.
    Cancelled,
}

/// Mathematical value of what a capture session works on.
pub struct CaptureSessionView {
    pub server: ServerView,
    pub state: State,
    pub prev_log: Option<u64>,
}

/// What `input` does to a running capture session, the actions it calls
/// for, and whether the session is over.
///
/// The session is over when the backend's stream has ended, and, after the
/// backend was shut down, when the control channel was closed or shutdown
/// was requested.
pub open spec fn capture_step(pre: CaptureSessionView, input: CaptureInput) -> (
    CaptureSessionView,
    Seq<CaptureAction>,
    bool,
) {
    match input {
        CaptureInput::Event(handle, event, bind_pressed) => {
            let (server, state, actions) = capture_event(
                pre.server,
                pre.state,
                handle,
                event,
                bind_pressed,
            );
            (CaptureSessionView { server, state, ..pre }, actions, false)
        },
        CaptureInput::EndOfStream => (pre, Seq::empty(), true),
        CaptureInput::Inbound(handle, event) => {
            let (server, state, actions) = capture_inbound(pre.server, pre.state, handle, event);
            (CaptureSessionView { server, state, ..pre }, actions, false)
        },
        CaptureInput::Request(request) => {
            let (server, state, actions) = capture_request(pre.server, pre.state, request);
            (CaptureSessionView { server, state, ..pre }, actions, false)
        },
        CaptureInput::SendFailed(now) => (
            CaptureSessionView {
                server: released(pre.server),
                state: State::Idle,
                prev_log: if is_due(pre.prev_log, now, SEND_FAILURE_LOG_INTERVAL) {
                    Some(now)
                } else {
                    pre.prev_log
                },
            },
            send_failure_actions(pre.prev_log, now),
            false,
        ),
        CaptureInput::Closed | CaptureInput::Cancelled => (
            pre,
            seq![CaptureAction::Terminate],
            true,
        ),
    }
}

/// Takes a running capture session one step: handles whatever woke it.
///
/// The second result says whether the session is over.
pub fn do_capture(
    server: &mut Server,
    state: &mut State,
    prev_log: &mut Option<u64>,
    input: CaptureInput,
) -> (res: (Vec<CaptureAction>, bool))
    ensures
        (
            CaptureSessionView {
                server: final(server)@,
                state: *final(state),
                prev_log: *final(prev_log),
            },
            res.0@,
            res.1,
        ) == capture_step(
            CaptureSessionView { server: old(server)@, state: *old(state), prev_log: *old(prev_log) },
            input,
        ),
{
    match input {
        CaptureInput::Event(handle, event, bind_pressed) => (
            handle_capture_event(server, state, (handle, event), bind_pressed),
            false,
        ),
        CaptureInput::EndOfStream => (Vec::new(), true),
        CaptureInput::Inbound(handle, event) => (
            handle_proto_event(server, state, (handle, event)),
            false,
        ),
        CaptureInput::Request(request) => (handle_request(server, state, request), false),
        CaptureInput::SendFailed(now) => (
            handle_send_failure(server, state, prev_log, now),
            false,
        ),
        CaptureInput::Closed | CaptureInput::Cancelled => {
            let mut actions: Vec<CaptureAction> = Vec::new();
            actions.push(CaptureAction::Terminate);
            (actions, true)
        },
    }
}

/// The actions that add a barrier for each of `handles`, in order, at the
/// edge configured for it.
pub open spec fn barriers(handles: Seq<ClientHandle>, reg: RegistryView) -> Seq<CaptureAction> {
    Seq::new(
        handles.len(),
        |i: int| CaptureAction::Create(handles[i], enter_position(reg, handles[i])),
    )
}

/// Begins a capture session once the backend exists: publishes the status
/// as enabled, adds a barrier for each active peer in ascending order of
/// their handles, and starts with an idle handshake.
pub fn begin_capture(server: &mut Server, state: &mut State) -> (actions: Vec<CaptureAction>)
    ensures
        final(server)@ == (ServerView { capture_status: Status::Enabled, ..old(server)@ }),
        *final(state) == State::Idle,
        exists|handles: Seq<ClientHandle>|
            lists_clients(handles, old(server)@.clients, true) && actions@ == #[trigger] barriers(
                handles,
                old(server)@.clients,
            ),
{
    server.set_capture_status(Status::Enabled);
    let handles = server.active_clients();
    let mut actions: Vec<CaptureAction> = Vec::new();
    let mut i: usize = 0;
    while i < handles.len()
        invariant
            i <= handles@.len(),
            actions@.len() == i,
            server@.clients == old(server)@.clients,
            forall|j: int|
                0 <= j < i ==> actions@[j] == CaptureAction::Create(
                    handles@[j],
                    enter_position(server@.clients, handles@[j]),
                ),
        decreases handles@.len() - i,
    {
        let handle = handles[i];
        let pos = match server.get_pos(handle) {
            Some(pos) => pos,
            None => Position::Left,
        };
        actions.push(CaptureAction::Create(handle, pos));
        i += 1;
    }
    *state = State::Idle;
    assert(actions@ =~= barriers(handles@, old(server)@.clients));
    actions
}

/// Notes that the capture session has ended: the status is published as
/// disabled.
pub fn capture_stopped(server: &mut Server)
    ensures
        final(server)@ == (ServerView { capture_status: Status::Disabled, ..old(server)@ }),
{
    server.set_capture_status(Status::Disabled);
}

/// What the capture controller does about `event` while it has no session:
/// requests are ignored, the closing of the control channel and being
/// enabled begin a new session, and cancellation ends the controller.
pub fn capture_task(event: IdleEvent) -> (next: Supervision)
    ensures
        next == match event {
            IdleEvent::Request => Supervision::Wait,
            IdleEvent::Closed | IdleEvent::Enabled => Supervision::Restart,
            IdleEvent::Cancelled => Supervision::Stop,
        },
{
    match event {
        IdleEvent::Request => Supervision::Wait,
        IdleEvent::Closed | IdleEvent::Enabled => Supervision::Restart,
        IdleEvent::Cancelled => Supervision::Stop,
    }
}

} // verus!
