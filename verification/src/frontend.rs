//! What a frontend asks of the service and how its requests are framed on
//! the way there, as far as that is computation: the widgets and the socket
//! are the caller's.

use crate::client::text_view;
use crate::event::{ClientHandle, Position};
use vstd::prelude::*;

verus! {

/// The port that is asked for where the user's entry is no port.
pub const DEFAULT_PORT: u16 = 4242;

/// A request of a frontend to the service.
#[derive(Debug, PartialEq, Eq)]
pub enum FrontendRequest {
    /// Activate or deactivate a client.
    Activate(ClientHandle, bool),
    /// Listen on another port.
    ChangePort(u16),
    /// Add a client.
    Create,
    /// Remove a client.
    Delete(ClientHandle),
    /// Enable input capture.
    EnableCapture,
    /// Enable input emulation.
    EnableEmulation,
    /// Report the state of a client.
    GetState(ClientHandle),
    /// Set the name a client is reached under.
    UpdateHostname(ClientHandle, Option<String>),
    /// Set the port a client is reached at.
    UpdatePort(ClientHandle, u16),
    /// Set the edge a client lies at.
    UpdatePosition(ClientHandle, Position),
    /// Resolve the name of a client again.
    ResolveDns(ClientHandle),
}

/// The eight bytes of `n`, most significant first.
pub open spec fn be_bytes(n: u64) -> Seq<u8> {
    seq![
        ((n >> 56) & 0xff) as u8,
        ((n >> 48) & 0xff) as u8,
        ((n >> 40) & 0xff) as u8,
        ((n >> 32) & 0xff) as u8,
        ((n >> 24) & 0xff) as u8,
        ((n >> 16) & 0xff) as u8,
        ((n >> 8) & 0xff) as u8,
        (n & 0xff) as u8,
    ]
}

/// Calls `endi::Endian::write_u64` with `Endian::Big` on a buffer of eight
/// bytes. The contract claims what that function does for big endian: it
/// fills the buffer with the bytes of `n`, most significant first.
#[verifier::external_body]
fn length_prefix(n: u64) -> (bytes: [u8; 8])
    ensures
        bytes@ == be_bytes(n),
{
    let mut bytes = [0u8; 8];
    endi::Endian::Big.write_u64(&mut bytes, n);
    bytes
}

/// A serialized request as it goes onto the stream to the service: its
/// length in bytes, as eight bytes with the most significant first, and then
/// the request itself.
pub fn frame_request(json: &[u8]) -> (frame: Vec<u8>)
    ensures
        frame@ == be_bytes(json@.len() as u64) + json@,
{
    let prefix = length_prefix(json.len() as u64);
    let mut frame: Vec<u8> = Vec::new();
    let mut i: usize = 0;
    while i < 8
        invariant
            i <= 8,
            prefix@.len() == 8,
            frame@ == prefix@.take(i as int),
        decreases 8 - i,
    {
        frame.push(prefix[i]);
        i += 1;
    }
    let mut j: usize = 0;
    while j < json.len()
        invariant
            j <= json@.len(),
            frame@ == prefix@ + json@.take(j as int),
        decreases json@.len() - j,
    {
        frame.push(json[j]);
        j += 1;
    }
    frame
}

/// What `str::parse::<u16>` makes of a text: the number it denotes, and
/// nothing where it denotes none.
pub uninterp spec fn parsed_port(text: Seq<char>) -> Option<u16>;

/// Calls `str::parse::<u16>` and drops the reason of a failure. The
/// contract gives the result its name and claims nothing else of it.
#[verifier::external_body]
fn parse_port(text: &str) -> (port: Option<u16>)
    ensures
        port == parsed_port(text@),
{
    text.parse::<u16>().ok()
}

/// The port to ask for, given what the user's entry was read as: the
/// number entered, and [`DEFAULT_PORT`] where the entry was no port.
pub fn port_or_default(parsed: Option<u16>) -> (port: u16)
    ensures
        port == match parsed {
            Some(port) => port,
            None => DEFAULT_PORT,
        },
{
    match parsed {
        Some(port) => port,
        None => DEFAULT_PORT,
    }
}

/// The request that the entry `text` in the port field stands for.
pub fn request_port_change(text: &str) -> (request: FrontendRequest)
    ensures
        request == FrontendRequest::ChangePort(
            match parsed_port(text@) {
                Some(port) => port,
                None => DEFAULT_PORT,
            },
        ),
{
    FrontendRequest::ChangePort(port_or_default(parse_port(text)))
}

/// The requests that bring the service up to date with a client's row: its
/// hostname, then its position, then its port. The row holds the port in 32
/// bits, of which the lower 16 are the port.
pub fn request_client_update(
    handle: ClientHandle,
    hostname: Option<String>,
    position: Position,
    port: u32,
) -> (requests: Vec<FrontendRequest>)
    ensures
        requests@ == seq![
            FrontendRequest::UpdateHostname(handle, hostname),
            FrontendRequest::UpdatePosition(handle, position),
            FrontendRequest::UpdatePort(handle, (port % 0x1_0000) as u16),
        ],
{
    let mut requests: Vec<FrontendRequest> = Vec::new();
    requests.push(FrontendRequest::UpdateHostname(handle, hostname));
    requests.push(FrontendRequest::UpdatePosition(handle, position));
    requests.push(FrontendRequest::UpdatePort(handle, (port % 0x1_0000) as u16));
    requests
}

/// Finds the first row of the client list that shows `handle`, where `rows`
/// holds the handle of each row.
pub fn client_idx(rows: &Vec<ClientHandle>, handle: ClientHandle) -> (idx: Option<usize>)
    ensures
        match idx {
            Some(i) => i < rows@.len() && rows@[i as int] == handle && forall|j: int|
                0 <= j < i ==> rows@[j] != handle,
            None => !rows@.contains(handle),
        },
{
    let mut i: usize = 0;
    while i < rows.len()
        invariant
            i <= rows@.len(),
            forall|j: int| 0 <= j < i ==> rows@[j] != handle,
        decreases rows@.len() - i,
    {
        if rows[i] == handle {
            return Some(i);
        }
        i += 1;
    }
    None
}

/// Takes the row of `handle` out of the client list.
///
/// The result is the row that was taken out and whether the list is empty
/// now, in which case its placeholder is to be shown; it is `None`, and the
/// list as it was, where no row shows `handle`.
pub fn delete_client(rows: &mut Vec<ClientHandle>, handle: ClientHandle) -> (removed: Option<
    (usize, bool),
>)
    ensures
        match removed {
            Some((i, placeholder)) => {
                &&& i < old(rows)@.len()
                &&& old(rows)@[i as int] == handle
                &&& forall|j: int| 0 <= j < i ==> old(rows)@[j] != handle
                &&& final(rows)@ == old(rows)@.remove(i as int)
                &&& placeholder == (old(rows)@.len() == 1)
            },
            None => !old(rows)@.contains(handle) && final(rows)@ == old(rows)@,
        },
{
    match client_idx(rows, handle) {
        Some(i) => {
            rows.remove(i);
            Some((i, rows.len() == 0))
        },
        None => None,
    }
}

/// How the resolver button of a row is styled.
#[derive(Clone, Copy, Debug, PartialEq, Eq, Structural)]
pub enum DnsStyle {
    /// The name of the client resolved to an address.
    Success,
    /// It did not.
    Warning,
}

/// The style of the resolver button of a row, given whether the name of its
/// client resolved.
pub fn update_dns_state(resolved: bool) -> (style: DnsStyle)
    ensures
        style == (if resolved {
            DnsStyle::Success
        } else {
            DnsStyle::Warning
        }),
{
    if resolved {
        DnsStyle::Success
    } else {
        DnsStyle::Warning
    }
}

/// What a row of the client list shows of its client.
#[derive(Debug, PartialEq, Eq)]
pub struct ClientRowData {
    pub handle: ClientHandle,
    pub hostname: Option<String>,
    pub port: u32,
    pub position: Position,
    pub active: bool,
    pub resolving: bool,
}

/// What the user can ask of a row.
#[derive(Clone, Copy, Debug, PartialEq, Eq, Structural)]
pub enum RowSignal {
    /// The row was edited or switched; the flag says whether it is switched on.
    Update(bool),
    /// The row is to be deleted.
    Delete,
    /// The name in the row is to be resolved again.
    Dns,
}

/// The requests that `signal` on `row` stands for.
///
/// An update activates or deactivates the client, brings the service up to
/// date with the row, and asks for the client's state. A deletion deletes
/// the client. A resolution brings the service up to date with the row,
/// has the name resolved, and asks for the client's state.
pub open spec fn signal_requests(row: ClientRowData, signal: RowSignal) -> Seq<FrontendRequest> {
    let update = seq![
        FrontendRequest::UpdateHostname(row.handle, row.hostname),
        FrontendRequest::UpdatePosition(row.handle, row.position),
        FrontendRequest::UpdatePort(row.handle, (row.port % 0x1_0000) as u16),
    ];
    match signal {
        RowSignal::Update(active) => seq![FrontendRequest::Activate(row.handle, active)] + update
            + seq![FrontendRequest::GetState(row.handle)],
        RowSignal::Delete => seq![FrontendRequest::Delete(row.handle)],
        RowSignal::Dns => update + seq![
            FrontendRequest::ResolveDns(row.handle),
            FrontendRequest::GetState(row.handle),
        ],
    }
}

/// A copy of an optional text.
fn copy_text(text: &Option<String>) -> (copy: Option<String>)
    ensures
        copy == *text,
{
    match text {
        Some(s) => Some(s.clone()),
        None => None,
    }
}

/// The requests to send when the user asks `signal` of `row`, in order.
pub fn setup_clients(row: &ClientRowData, signal: RowSignal) -> (requests: Vec<FrontendRequest>)
    ensures
        requests@ == signal_requests(*row, signal),
{
    let mut requests: Vec<FrontendRequest> = Vec::new();
    match signal {
        RowSignal::Update(active) => {
            requests.push(FrontendRequest::Activate(row.handle, active));
            let mut update = request_client_update(
                row.handle,
                copy_text(&row.hostname),
                row.position,
                row.port,
            );
            requests.append(&mut update);
            requests.push(FrontendRequest::GetState(row.handle));
        },
        RowSignal::Delete => {
            requests.push(FrontendRequest::Delete(row.handle));
        },
        RowSignal::Dns => {
            let mut update = request_client_update(
                row.handle,
                copy_text(&row.hostname),
                row.position,
                row.port,
            );
            requests.append(&mut update);
            requests.push(FrontendRequest::ResolveDns(row.handle));
            requests.push(FrontendRequest::GetState(row.handle));
        },
    }
    requests
}

/// Whether two optional texts read the same.
fn same_text(a: &Option<String>, b: &Option<String>) -> (same: bool)
    ensures
        same == (text_view(*a) == text_view(*b)),
{
    match (a, b) {
        (Some(x), Some(y)) => *x == *y,
        (None, None) => true,
        _ => false,
    }
}

/// What is to be set in a row; `None` where the row already shows it.
#[derive(Debug, PartialEq, Eq)]
pub struct ConfigUpdate {
    pub hostname: Option<String>,
    pub port: Option<u32>,
    pub position: Option<Position>,
}

/// What is to be set in `row` so that it shows the given configuration.
///
/// Only what differs is set, since setting a field has the row signal an
/// update. A client without a hostname is shown with an empty one.
pub fn update_client_config(
    row: &ClientRowData,
    hostname: Option<String>,
    port: u16,
    pos: Position,
) -> (update: ConfigUpdate)
    ensures
        text_view(update.hostname) == (if text_view(row.hostname) == text_view(hostname) {
            None
        } else {
            match hostname {
                Some(name) => Some(name@),
                None => Some(Seq::<char>::empty()),
            }
        }),
        update.port == (if row.port == port {
            None
        } else {
            Some(port as u32)
        }),
        update.position == (if row.position == pos {
            None
        } else {
            Some(pos)
        }),
{
    let new_hostname = if same_text(&row.hostname, &hostname) {
        None
    } else {
        match hostname {
            Some(name) => Some(name),
            None => Some(String::new()),
        }
    };
    let new_port = if row.port == port as u32 {
        None
    } else {
        Some(port as u32)
    };
    let new_position = if row.position == pos {
        None
    } else {
        Some(pos)
    };
    ConfigUpdate { hostname: new_hostname, port: new_port, position: new_position }
}

/// What is to be set in a row after the state of its client was reported.
#[derive(Clone, Copy, Debug, PartialEq, Eq, Structural)]
pub struct StateUpdate {
    /// The new setting of the switch; `None` where the row already shows it.
    pub active: Option<bool>,
    /// The new setting of the spinner; `None` where the row already shows it.
    pub resolving: Option<bool>,
    /// The style of the resolver button.
    pub dns: DnsStyle,
}

/// What is to be set in `row` so that it shows a client that is `active`,
/// is `resolving` its name, and has `ips` addresses.
pub fn update_client_state(row: &ClientRowData, active: bool, resolving: bool, ips: usize) -> (update:
    StateUpdate)
    ensures
        update == (StateUpdate {
            active: if active != row.active {
                Some(active)
            } else {
                None
            },
            resolving: if resolving != row.resolving {
                Some(resolving)
            } else {
                None
            },
            dns: if ips > 0 {
                DnsStyle::Success
            } else {
                DnsStyle::Warning
            },
        }),
{
    StateUpdate {
        active: if active != row.active {
            Some(active)
        } else {
            None
        },
        resolving: if resolving != row.resolving {
            Some(resolving)
        } else {
            None
        },
        dns: update_dns_state(ips > 0),
    }
}

} // verus!
