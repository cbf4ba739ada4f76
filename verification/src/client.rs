//! The registry of configured peers: what each peer is configured as, what is
//! known of it while a session runs, and the lookup from a source address to
//! the peer it belongs to.

use crate::event::{ClientHandle, Position, SocketAddress};
use std::collections::HashSet;
use vstd::prelude::*;
use vstd::std_specs::iter::IteratorSpec;

verus! {

/// How a peer is configured.
#[derive(Debug)]
pub struct ClientConfig {
    /// Name the peer was configured under, if any.
    pub hostname: Option<String>,
    /// The endpoints the peer may send from.
    pub addrs: Vec<SocketAddress>,
    /// The screen edge at which the peer lies.
    pub pos: Position,
    /// Shell command to run when capture for this peer begins.
    pub cmd: Option<String>,
}

/// What is known of a peer while sessions run.
#[derive(Debug)]
pub struct ClientState {
    /// Whether capture barriers and emulation are set up for the peer.
    pub active: bool,
    /// The endpoint from which the peer was last heard.
    pub active_addr: Option<SocketAddress>,
    /// Set whenever the peer is heard from; cleared by the liveness sweep.
    pub alive: bool,
    /// The keys the emulation backend currently holds down for the peer.
    pub pressed_keys: HashSet<u32>,
}

/// One registered peer.
#[derive(Debug)]
pub struct Client {
    pub config: ClientConfig,
    pub state: ClientState,
}

/// Mathematical value of a [`ClientConfig`].
pub struct ClientConfigView {
    pub hostname: Option<Seq<char>>,
    pub addrs: Seq<SocketAddress>,
    pub pos: Position,
    pub cmd: Option<Seq<char>>,
}

/// Mathematical value of a [`ClientState`].
pub struct ClientStateView {
    pub active: bool,
    pub active_addr: Option<SocketAddress>,
    pub alive: bool,
    pub pressed_keys: Set<u32>,
}

/// Mathematical value of a [`Client`].
pub struct ClientView {
    pub config: ClientConfigView,
    pub state: ClientStateView,
}

/// Mathematical value of the registry: one entry per slot, `None` where the
/// slot is vacant. A peer's handle is the index of its slot.
pub type RegistryView = Seq<Option<ClientView>>;

/// The characters of an optional text.
pub open spec fn text_view(text: Option<String>) -> Option<Seq<char>> {
    match text {
        Some(s) => Some(s@),
        None => None,
    }
}

impl View for ClientConfig {
    type V = ClientConfigView;

    open spec fn view(&self) -> ClientConfigView {
        ClientConfigView {
            hostname: text_view(self.hostname),
            addrs: self.addrs@,
            pos: self.pos,
            cmd: text_view(self.cmd),
        }
    }
}

impl View for ClientState {
    type V = ClientStateView;

    open spec fn view(&self) -> ClientStateView {
        ClientStateView {
            active: self.active,
            active_addr: self.active_addr,
            alive: self.alive,
            pressed_keys: self.pressed_keys@,
        }
    }
}

impl View for Client {
    type V = ClientView;

    open spec fn view(&self) -> ClientView {
        ClientView { config: self.config@, state: self.state@ }
    }
}

/// The state of a peer that has just been registered.
pub open spec fn initial_state() -> ClientStateView {
    ClientStateView {
        active: false,
        active_addr: None,
        alive: false,
        pressed_keys: Set::empty(),
    }
}

/// Whether `handle` names a registered peer.
pub open spec fn has_client(reg: RegistryView, handle: int) -> bool {
    0 <= handle < reg.len() && reg[handle] is Some
}

/// The keys held for `handle`; none where no such peer is registered.
pub open spec fn pressed_keys_of(reg: RegistryView, handle: int) -> Set<u32> {
    if has_client(reg, handle) {
        reg[handle]->0.state.pressed_keys
    } else {
        Set::empty()
    }
}

/// Whether `handle` is a registered peer one of whose endpoints is `addr`.
pub open spec fn routes(reg: RegistryView, handle: int, addr: SocketAddress) -> bool {
    has_client(reg, handle) && reg[handle]->0.config.addrs.contains(addr)
}

/// The peer that traffic from `addr` belongs to: the least handle one of
/// whose endpoints is `addr`, looked for from slot `from` on.
pub open spec fn lookup_from(reg: RegistryView, addr: SocketAddress, from: int) -> Option<
    ClientHandle,
>
    decreases reg.len() - from,
{
    if from < 0 || from >= reg.len() {
        None
    } else if routes(reg, from, addr) {
        Some(from as ClientHandle)
    } else {
        lookup_from(reg, addr, from + 1)
    }
}

/// The peer that traffic from `addr` belongs to, if any.
pub open spec fn lookup(reg: RegistryView, addr: SocketAddress) -> Option<ClientHandle> {
    lookup_from(reg, addr, 0)
}

/// `list` names, in ascending order and once each, exactly the registered
/// peers of `reg` (those that are active, where `active_only` is set).
pub open spec fn lists_clients(list: Seq<ClientHandle>, reg: RegistryView, active_only: bool) -> bool {
    &&& forall|i: int, j: int| 0 <= i < j < list.len() ==> list[i] < list[j]
    &&& forall|i: int|
        0 <= i < list.len() ==> #[trigger] listed(reg, list[i] as int, active_only)
    &&& forall|h: int| #[trigger] listed(reg, h, active_only) ==> list.contains(h as ClientHandle)
}

/// Whether a listing of `reg` holds `handle`.
pub open spec fn listed(reg: RegistryView, handle: int, active_only: bool) -> bool {
    has_client(reg, handle) && (active_only ==> reg[handle]->0.state.active)
}

/// The registry's value after `handle`'s state was replaced by `state`.
pub open spec fn with_state(reg: RegistryView, handle: int, state: ClientStateView) -> RegistryView {
    if has_client(reg, handle) {
        reg.update(handle, Some(ClientView { config: reg[handle]->0.config, state }))
    } else {
        reg
    }
}

/// The lookup result is the least handle that routes `addr`, and `None`
/// exactly where no handle does.
pub proof fn lemma_lookup_least(reg: RegistryView, addr: SocketAddress, from: int)
    requires
        0 <= from,
        reg.len() <= u64::MAX,
    ensures
        match lookup_from(reg, addr, from) {
            Some(h) => {
                &&& from <= h
                &&& routes(reg, h as int, addr)
                &&& forall|j: int| from <= j < h ==> !routes(reg, j, addr)
            },
            None => forall|j: int| from <= j ==> !routes(reg, j, addr),
        },
    decreases reg.len() - from,
{
    if from < reg.len() && !routes(reg, from, addr) {
        lemma_lookup_least(reg, addr, from + 1);
    }
}

/// Registries that agree on which handle has which endpoints route alike.
pub proof fn lemma_lookup_same_routes(a: RegistryView, b: RegistryView, addr: SocketAddress, from: int)
    requires
        0 <= from,
        a.len() == b.len(),
        forall|h: int| routes(a, h, addr) == routes(b, h, addr),
    ensures
        lookup_from(a, addr, from) == lookup_from(b, addr, from),
    decreases a.len() - from,
{
    if from < a.len() && !routes(a, from, addr) {
        lemma_lookup_same_routes(a, b, addr, from + 1);
    }
}

impl ClientConfig {
    /// A configuration with the given endpoints and edge, without name or command.
    pub fn new(addrs: Vec<SocketAddress>, pos: Position) -> (config: ClientConfig)
        ensures
            config@ == (ClientConfigView { hostname: None, addrs: addrs@, pos, cmd: None }),
    {
        ClientConfig { hostname: None, addrs, pos, cmd: None }
    }

    /// Whether `addr` is one of the configured endpoints.
    pub fn has_addr(&self, addr: SocketAddress) -> (found: bool)
        ensures
            found == self@.addrs.contains(addr),
    {
        let mut i: usize = 0;
        while i < self.addrs.len()
            invariant
                i <= self.addrs@.len(),
                forall|j: int| 0 <= j < i ==> self.addrs@[j] != addr,
            decreases self.addrs@.len() - i,
        {
            if self.addrs[i].same(&addr) {
                return true;
            }
            i += 1;
        }
        false
    }
}

impl ClientState {
    /// The state of a peer that has just been registered.
    pub fn new() -> (state: ClientState)
        ensures
            state@ == initial_state(),
    {
        ClientState { active: false, active_addr: None, alive: false, pressed_keys: HashSet::new() }
    }
}

/// The registry of configured peers.
#[derive(Debug)]
pub struct ClientManager {
    clients: Vec<Option<Client>>,
}

impl View for ClientManager {
    type V = RegistryView;

    closed spec fn view(&self) -> RegistryView {
        slots_view(self.clients@)
    }
}

/// The value of a sequence of slots.
pub open spec fn slots_view(slots: Seq<Option<Client>>) -> RegistryView {
    Seq::new(
        slots.len(),
        |i: int|
            match slots[i] {
                Some(c) => Some(c@),
                None => None,
            },
    )
}

/// The least vacant slot of `reg` from `from` on, or its length where every slot is taken.
pub open spec fn first_vacant(reg: RegistryView, from: int) -> int
    decreases reg.len() - from,
{
    if from < 0 || from >= reg.len() {
        reg.len() as int
    } else if reg[from] is None {
        from
    } else {
        first_vacant(reg, from + 1)
    }
}

/// The registry's value after a peer with `config` was registered.
pub open spec fn with_client(reg: RegistryView, config: ClientConfigView) -> RegistryView {
    let slot = first_vacant(reg, 0);
    let client = Some(ClientView { config, state: initial_state() });
    if slot < reg.len() {
        reg.update(slot, client)
    } else {
        reg.push(client)
    }
}

/// The registry's value after `handle` was removed.
pub open spec fn without_client(reg: RegistryView, handle: int) -> RegistryView {
    if has_client(reg, handle) {
        reg.update(handle, None)
    } else {
        reg
    }
}

impl ClientManager {
    /// An empty registry.
    pub fn new() -> (m: ClientManager)
        ensures
            m@ == Seq::<Option<ClientView>>::empty(),
    {
        ClientManager { clients: Vec::new() }
    }

    /// The registry has no more slots than a handle can name.
    pub proof fn lemma_slots_fit(&self)
        ensures
            self@.len() <= usize::MAX,
    {
        assert(self.clients.len() == self.clients@.len());
    }

    /// Registers a peer in the least vacant slot and returns its handle.
    pub fn add_client(&mut self, config: ClientConfig) -> (handle: ClientHandle)
        ensures
            handle == first_vacant(old(self)@, 0),
            final(self)@ == with_client(old(self)@, config@),
    {
        let ghost before = self@;
        let ghost added = config@;
        let client = Client { config, state: ClientState::new() };
        let mut i: usize = 0;
        while i < self.clients.len()
            invariant
                i <= self.clients@.len(),
                self@ == before,
                before == old(self)@,
                added == client.config@,
                added == config@,
                client.state@ == initial_state(),
                first_vacant(before, 0) == first_vacant(before, i as int),
            decreases self.clients@.len() - i,
        {
            assert(before[i as int] is None <==> self.clients@[i as int] is None);
            if self.clients[i].is_none() {
                self.clients[i] = Some(client);
                return i as ClientHandle;
            }
            i += 1;
        }
        self.clients.push(Some(client));
        i as ClientHandle
    }

    /// Removes a peer and hands back what was registered for it.
    pub fn remove_client(&mut self, handle: ClientHandle) -> (removed: Option<Client>)
        ensures
            final(self)@ == without_client(old(self)@, handle as int),
            match removed {
                Some(c) => has_client(old(self)@, handle as int) && old(self)@[handle as int]
                    == Some(c@),
                None => !has_client(old(self)@, handle as int),
            },
    {
        if handle >= self.clients.len() as u64 {
            return None;
        }
        let idx: usize = handle as usize;
        let removed = self.clients[idx].take();
        removed
    }

    /// The peer registered under `handle`.
    pub fn get(&self, handle: ClientHandle) -> (found: Option<&Client>)
        ensures
            match found {
                Some(c) => has_client(self@, handle as int) && self@[handle as int] == Some(c@),
                None => !has_client(self@, handle as int),
            },
    {
        if handle >= self.clients.len() as u64 {
            return None;
        }
        let idx: usize = handle as usize;
        self.clients[idx].as_ref()
    }

    /// The peer registered under `handle`, for update.
    pub fn get_mut(&mut self, handle: ClientHandle) -> (found: Option<&mut Client>)
        ensures
            match found {
                Some(c) => {
                    &&& has_client(old(self)@, handle as int)
                    &&& old(self)@[handle as int] == Some(c@)
                    &&& final(self)@ == old(self)@.update(handle as int, Some(final(c)@))
                },
                None => !has_client(old(self)@, handle as int) && final(self)@ == old(self)@,
            },
    {
        if handle >= self.clients.len() as u64 {
            return None;
        }
        let idx: usize = handle as usize;
        proof {
            let slots = self.clients@;
            assert forall|c: Client| #[trigger]
                slots_view(slots.update(idx as int, Some(c))) == slots_view(slots).update(
                    idx as int,
                    Some(c@),
                ) by {
                assert(slots_view(slots.update(idx as int, Some(c))) =~= slots_view(slots).update(
                    idx as int,
                    Some(c@),
                ));
            }
            assert(slots[idx as int] is None ==> slots.update(idx as int, None) =~= slots);
        }
        match &mut self.clients[idx] {
            Some(c) => Some(c),
            None => None,
        }
    }

    /// The peer that traffic from `addr` belongs to.
    pub fn get_client(&self, addr: SocketAddress) -> (found: Option<ClientHandle>)
        ensures
            found == lookup(self@, addr),
            found matches Some(handle) ==> routes(self@, handle as int, addr),
    {
        let mut i: usize = 0;
        while i < self.clients.len()
            invariant
                i <= self.clients@.len(),
                lookup(self@, addr) == lookup_from(self@, addr, i as int),
            decreases self.clients@.len() - i,
        {
            let hit = match &self.clients[i] {
                Some(c) => c.config.has_addr(addr),
                None => false,
            };
            if hit {
                return Some(i as ClientHandle);
            }
            i += 1;
        }
        None
    }

    /// The screen edge configured for `handle`.
    pub fn get_pos(&self, handle: ClientHandle) -> (pos: Option<Position>)
        ensures
            pos == (if has_client(self@, handle as int) {
                Some(self@[handle as int]->0.config.pos)
            } else {
                None
            }),
    {
        match self.get(handle) {
            Some(c) => Some(c.config.pos),
            None => None,
        }
    }

    /// The handles of all registered peers, in ascending order.
    pub fn get_client_states(&self) -> (handles: Vec<ClientHandle>)
        ensures
            lists_clients(handles@, self@, false),
            self@.len() <= usize::MAX,
    {
        self.list(false)
    }

    /// The handles of the peers marked active, in ascending order.
    pub fn active_clients(&self) -> (handles: Vec<ClientHandle>)
        ensures
            lists_clients(handles@, self@, true),
    {
        self.list(true)
    }

    fn list(&self, active_only: bool) -> (handles: Vec<ClientHandle>)
        ensures
            lists_clients(handles@, self@, active_only),
            self@.len() <= usize::MAX,
    {
        proof {
            self.lemma_slots_fit();
        }
        let mut handles: Vec<ClientHandle> = Vec::new();
        let mut i: usize = 0;
        while i < self.clients.len()
            invariant
                i <= self.clients@.len(),
                self@.len() == self.clients@.len(),
                forall|a: int, b: int| 0 <= a < b < handles@.len() ==> handles@[a] < handles@[b],
                forall|a: int| 0 <= a < handles@.len() ==> handles@[a] < i,
                forall|a: int|
                    0 <= a < handles@.len() ==> #[trigger] listed(
                        self@,
                        handles@[a] as int,
                        active_only,
                    ),
                forall|h: int|
                    0 <= h < i && #[trigger] listed(self@, h, active_only) ==> handles@.contains(
                        h as ClientHandle,
                    ),
            decreases self.clients@.len() - i,
        {
            let take = match &self.clients[i] {
                Some(c) => !active_only || c.state.active,
                None => false,
            };
            if take {
                let ghost before = handles@;
                handles.push(i as ClientHandle);
                assert(handles@[before.len() as int] == i as ClientHandle);
                assert forall|h: int|
                    0 <= h < i + 1 && #[trigger] listed(
                        self@,
                        h,
                        active_only,
                    ) implies handles@.contains(h as ClientHandle) by {
                    if h < i {
                        let k = choose|k: int| 0 <= k < before.len() && before[k] == h as ClientHandle;
                        assert(handles@[k] == h as ClientHandle);
                    }
                }
            }
            i += 1;
        }
        handles
    }

    /// Marks a peer as active or not; says whether the peer exists.
    pub fn set_active(&mut self, handle: ClientHandle, active: bool) -> (found: bool)
        ensures
            found == has_client(old(self)@, handle as int),
            final(self)@ == (if found {
                with_state(
                    old(self)@,
                    handle as int,
                    ClientStateView { active, ..old(self)@[handle as int]->0.state },
                )
            } else {
                old(self)@
            }),
    {
        match self.get_mut(handle) {
            Some(c) => {
                c.state.active = active;
                true
            },
            None => false,
        }
    }

    /// Whether `key` is held for `handle`.
    pub fn is_pressed(&self, handle: ClientHandle, key: u32) -> (held: bool)
        ensures
            held == pressed_keys_of(self@, handle as int).contains(key),
    {
        broadcast use vstd::std_specs::hash::group_hash_axioms;

        match self.get(handle) {
            Some(c) => c.state.pressed_keys.contains(&key),
            None => false,
        }
    }
}

/// The keys of `keys` in the order in which the set hands them out: each key
/// once, none that is not in the set.
pub fn keys_in_order(keys: &HashSet<u32>) -> (out: Vec<u32>)
    ensures
        out@.no_duplicates(),
        out@.to_set() == keys@,
{
    broadcast use vstd::std_specs::hash::group_hash_axioms;

    let mut out: Vec<u32> = Vec::new();
    for k in it: keys.iter()
        invariant
            out@.len() == it.index(),
            forall|j: int| 0 <= j < out@.len() ==> out@[j] == *it.seq()[j],
            it.seq() == vstd::std_specs::hash::spec_hash_keys_iter(keys).remaining(),
    {
        out.push(*k);
    }
    proof {
        let rem = vstd::std_specs::hash::spec_hash_keys_iter(keys).remaining();
        assert(out@ =~= rem.unref());
    }
    out
}

} // verus!
