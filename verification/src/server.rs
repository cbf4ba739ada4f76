//! The context through which the two controllers coordinate: the global mode,
//! the release latch, the capture-side active peer, the published statuses
//! and the cancellation flag, next to the registry of peers.

use crate::capture::CaptureRequest;
use crate::client::{has_client, lists_clients, without_client, ClientManager, RegistryView};
use crate::emulation::EmulationEvent;
use crate::event::{ClientHandle, Position};
use vstd::prelude::*;

verus! {

/// Which way input currently flows.
#[derive(Clone, Copy, Debug, PartialEq, Eq, Structural)]
pub enum Mode {
    /// Local input is captured and forwarded to a peer.
    Sending,
    /// A peer sends input, which is emulated locally.
    Receiving,
    /// Sending has just stopped; inbound events are dropped until the peer
    /// answers with a leave.
    AwaitingLeave,
}

/// What a controller publishes of itself.
#[derive(Clone, Copy, Debug, PartialEq, Eq, Structural)]
pub enum Status {
    Enabled,
    Disabled,
}

/// What a controller does after a session has ended.
#[derive(Clone, Copy, Debug, PartialEq, Eq, Structural)]
pub enum Supervision {
    /// Go on waiting.
    Wait,
    /// Begin a new session.
    Restart,
    /// Return for good.
    Stop,
}

/// What a controller without a session can be woken by.
#[derive(Clone, Copy, Debug, PartialEq, Eq, Structural)]
pub enum IdleEvent {
    /// A request arrived on the control channel.
    Request,
    /// The control channel was closed.
    Closed,
    /// The controller was enabled again.
    Enabled,
    /// Shutdown was requested.
    Cancelled,
}

/// The shared context.
#[derive(Debug)]
pub struct Server {
    pub client_manager: ClientManager,
    /// The global mode.
    pub state: Mode,
    /// Latch that makes the capture controller release at its next event.
    pub should_release: bool,
    /// The peer that capture currently forwards to.
    pub active_client: Option<ClientHandle>,
    /// The keys that, held together, release capture.
    pub release_bind: Vec<u32>,
    pub capture_status: Status,
    pub emulation_status: Status,
    /// Set once shutdown was requested.
    pub cancelled: bool,
}

/// Mathematical value of the shared context.
pub struct ServerView {
    pub clients: RegistryView,
    pub mode: Mode,
    pub should_release: bool,
    pub active: Option<ClientHandle>,
    pub release_bind: Seq<u32>,
    pub capture_status: Status,
    pub emulation_status: Status,
    pub cancelled: bool,
}

impl View for Server {
    type V = ServerView;

    open spec fn view(&self) -> ServerView {
        ServerView {
            clients: self.client_manager@,
            mode: self.state,
            should_release: self.should_release,
            active: self.active_client,
            release_bind: self.release_bind@,
            capture_status: self.capture_status,
            emulation_status: self.emulation_status,
            cancelled: self.cancelled,
        }
    }
}

/// The edge configured for `handle`, if such a peer is registered.
pub open spec fn position_of(reg: RegistryView, handle: ClientHandle) -> Option<Position> {
    if has_client(reg, handle as int) {
        Some(reg[handle as int]->0.config.pos)
    } else {
        None
    }
}

impl Server {
    /// A context around `client_manager`: receiving, nothing latched, no
    /// active peer, both controllers disabled, not cancelled.
    pub fn new(client_manager: ClientManager, release_bind: Vec<u32>) -> (server: Server)
        ensures
            server@ == (ServerView {
                clients: client_manager@,
                mode: Mode::Receiving,
                should_release: false,
                active: None,
                release_bind: release_bind@,
                capture_status: Status::Disabled,
                emulation_status: Status::Disabled,
                cancelled: false,
            }),
    {
        Server {
            client_manager,
            state: Mode::Receiving,
            should_release: false,
            active_client: None,
            release_bind,
            capture_status: Status::Disabled,
            emulation_status: Status::Disabled,
            cancelled: false,
        }
    }

    /// Requests shutdown.
    pub fn cancel(&mut self)
        ensures
            final(self)@ == (ServerView { cancelled: true, ..old(self)@ }),
    {
        self.cancelled = true;
    }

    /// Whether shutdown was requested.
    pub fn is_cancelled(&self) -> (cancelled: bool)
        ensures
            cancelled == self@.cancelled,
    {
        self.cancelled
    }

    /// Publishes the capture controller's status.
    pub fn set_capture_status(&mut self, status: Status)
        ensures
            final(self)@ == (ServerView { capture_status: status, ..old(self)@ }),
    {
        self.capture_status = status;
    }

    /// Publishes the emulation controller's status.
    pub fn set_emulation_status(&mut self, status: Status)
        ensures
            final(self)@ == (ServerView { emulation_status: status, ..old(self)@ }),
    {
        self.emulation_status = status;
    }

    /// Sets the release latch.
    pub fn request_release(&mut self)
        ensures
            final(self)@ == (ServerView { should_release: true, ..old(self)@ }),
    {
        self.should_release = true;
    }

    /// Empties the release latch and says whether it was set.
    pub fn take_release(&mut self) -> (was_set: bool)
        ensures
            was_set == old(self)@.should_release,
            final(self)@ == (ServerView { should_release: false, ..old(self)@ }),
    {
        let was_set = self.should_release;
        self.should_release = false;
        was_set
    }

    /// The handles of the peers marked active, in ascending order.
    pub fn active_clients(&self) -> (handles: Vec<ClientHandle>)
        ensures
            lists_clients(handles@, self@.clients, true),
    {
        self.client_manager.active_clients()
    }

    /// The edge configured for `handle`.
    pub fn get_pos(&self, handle: ClientHandle) -> (pos: Option<Position>)
        ensures
            pos == position_of(self@.clients, handle),
    {
        self.client_manager.get_pos(handle)
    }

    /// Names the peer that capture forwards to, or none.
    pub fn set_active(&mut self, handle: Option<ClientHandle>)
        ensures
            final(self)@ == (ServerView { active: handle, ..old(self)@ }),
    {
        self.active_client = handle;
    }

    /// The peer that capture forwards to.
    pub fn get_active(&self) -> (handle: Option<ClientHandle>)
        ensures
            handle == self@.active,
    {
        self.active_client
    }

    /// Takes a peer out of the registry.
    ///
    /// The result holds what both controllers are to be told: that the
    /// peer's barrier and the backend's state for it are to go. It is `None`,
    /// and nothing changes, where `handle` names no registered peer.
    pub fn destroy_client(&mut self, handle: ClientHandle) -> (requests: Option<
        (CaptureRequest, EmulationEvent),
    >)
        ensures
            final(self)@ == (ServerView {
                clients: without_client(old(self)@.clients, handle as int),
                ..old(self)@
            }),
            requests == (if has_client(old(self)@.clients, handle as int) {
                Some((CaptureRequest::Destroy(handle), EmulationEvent::Destroy(handle)))
            } else {
                None
            }),
    {
        match self.client_manager.remove_client(handle) {
            Some(_) => Some((CaptureRequest::Destroy(handle), EmulationEvent::Destroy(handle))),
            None => None,
        }
    }
}

} // verus!
