use lan_mouse::capture_test::{barriers, ends_trial, position_of, RELEASE_KEY};
use lan_mouse::emulation::LanMouseEmulationError;
use lan_mouse::event::{InputEvent, KeyboardEvent, PointerEvent, Position};
use lan_mouse::frontend::{
    client_idx, delete_client, frame_request, port_or_default, request_client_update,
    request_port_change, setup_clients, update_client_config, update_client_state,
    update_dns_state, ClientRowData, ConfigUpdate, DnsStyle, FrontendRequest, RowSignal,
    StateUpdate, DEFAULT_PORT,
};

#[test]
fn frame_is_length_then_payload() {
    assert_eq!(frame_request(b"{}"), vec![0, 0, 0, 0, 0, 0, 0, 2, b'{', b'}']);
    assert_eq!(frame_request(b""), vec![0, 0, 0, 0, 0, 0, 0, 0]);
    let long = vec![7u8; 0x0102];
    let frame = frame_request(&long);
    assert_eq!(frame.len(), 8 + 0x0102);
    assert_eq!(&frame[..8], &[0, 0, 0, 0, 0, 0, 1, 2]);
    assert_eq!(&frame[8..], &long[..]);
}

#[test]
fn port_entry() {
    assert_eq!(DEFAULT_PORT, 4242);
    assert_eq!(request_port_change("4343"), FrontendRequest::ChangePort(4343));
    assert_eq!(request_port_change("0"), FrontendRequest::ChangePort(0));
    assert_eq!(request_port_change("65535"), FrontendRequest::ChangePort(65535));
    assert_eq!(request_port_change("65536"), FrontendRequest::ChangePort(4242));
    assert_eq!(request_port_change(""), FrontendRequest::ChangePort(4242));
    assert_eq!(request_port_change("port"), FrontendRequest::ChangePort(4242));
    assert_eq!(request_port_change(" 80"), FrontendRequest::ChangePort(4242));
    assert_eq!(request_port_change("-1"), FrontendRequest::ChangePort(4242));
    assert_eq!(port_or_default(Some(1)), 1);
    assert_eq!(port_or_default(None), 4242);
}

#[test]
fn client_update_requests_in_order() {
    assert_eq!(
        request_client_update(3, Some(String::from("host")), Position::Top, 4242),
        vec![
            FrontendRequest::UpdateHostname(3, Some(String::from("host"))),
            FrontendRequest::UpdatePosition(3, Position::Top),
            FrontendRequest::UpdatePort(3, 4242),
        ]
    );
    // only the lower 16 bits of the row's port count
    assert_eq!(
        request_client_update(0, None, Position::Left, 0x1_0001),
        vec![
            FrontendRequest::UpdateHostname(0, None),
            FrontendRequest::UpdatePosition(0, Position::Left),
            FrontendRequest::UpdatePort(0, 1),
        ]
    );
}

#[test]
fn rows_of_the_client_list() {
    let mut rows = vec![4, 7, 4, 9];
    assert_eq!(client_idx(&rows, 4), Some(0));
    assert_eq!(client_idx(&rows, 9), Some(3));
    assert_eq!(client_idx(&rows, 5), None);

    assert_eq!(delete_client(&mut rows, 5), None);
    assert_eq!(rows, vec![4, 7, 4, 9]);
    assert_eq!(delete_client(&mut rows, 4), Some((0, false)));
    assert_eq!(rows, vec![7, 4, 9]);
    assert_eq!(delete_client(&mut rows, 9), Some((2, false)));
    assert_eq!(delete_client(&mut rows, 7), Some((0, false)));
    assert_eq!(delete_client(&mut rows, 4), Some((0, true)));
    assert_eq!(rows, vec![]);
    assert_eq!(delete_client(&mut rows, 4), None);
}

#[test]
fn resolver_button_style() {
    assert_eq!(update_dns_state(true), DnsStyle::Success);
    assert_eq!(update_dns_state(false), DnsStyle::Warning);
}

#[test]
fn emulation_error_messages() {
    assert_eq!(
        LanMouseEmulationError::Create(String::from("no backend")).message(),
        "error creating input-emulation: `no backend`"
    );
    assert_eq!(
        LanMouseEmulationError::Emulate(String::from("end of stream")).message(),
        "error emulating input: `end of stream`"
    );
    assert_eq!(LanMouseEmulationError::Emulate(String::new()).message(), "error emulating input: ``");
}

#[test]
fn capture_trial() {
    assert_eq!(
        barriers(),
        vec![(0, Position::Left), (1, Position::Right), (2, Position::Top), (3, Position::Bottom)]
    );
    assert_eq!(position_of(0), Position::Left);
    assert_eq!(position_of(1), Position::Right);
    assert_eq!(position_of(2), Position::Top);
    assert_eq!(position_of(3), Position::Bottom);
    assert_eq!(position_of(u64::MAX), Position::Bottom);

    assert_eq!(RELEASE_KEY, 1);
    let escape = |state| InputEvent::Keyboard(KeyboardEvent::Key { time: 9, key: 1, state });
    assert!(ends_trial(escape(1)));
    assert!(ends_trial(escape(0)));
    assert!(!ends_trial(InputEvent::Keyboard(KeyboardEvent::Key { time: 0, key: 2, state: 1 })));
    assert!(!ends_trial(InputEvent::Pointer(PointerEvent::Button { time: 0, button: 1, state: 1 })));
    assert!(!ends_trial(InputEvent::Keyboard(KeyboardEvent::Modifiers {
        mods_depressed: 1,
        mods_latched: 1,
        mods_locked: 1,
        group: 1
    })));
}

fn row() -> ClientRowData {
    ClientRowData {
        handle: 2,
        hostname: Some(String::from("laptop")),
        port: 4242,
        position: Position::Right,
        active: false,
        resolving: false,
    }
}

#[test]
fn row_signals() {
    let update = vec![
        FrontendRequest::UpdateHostname(2, Some(String::from("laptop"))),
        FrontendRequest::UpdatePosition(2, Position::Right),
        FrontendRequest::UpdatePort(2, 4242),
    ];
    let mut expected = vec![FrontendRequest::Activate(2, true)];
    expected.extend(request_client_update(2, Some(String::from("laptop")), Position::Right, 4242));
    expected.push(FrontendRequest::GetState(2));
    assert_eq!(setup_clients(&row(), RowSignal::Update(true)), expected);
    assert_eq!(expected[1..4], update[..]);

    assert_eq!(setup_clients(&row(), RowSignal::Delete), vec![FrontendRequest::Delete(2)]);

    let mut expected = update;
    expected.push(FrontendRequest::ResolveDns(2));
    expected.push(FrontendRequest::GetState(2));
    assert_eq!(setup_clients(&row(), RowSignal::Dns), expected);
}

#[test]
fn only_what_differs_is_set_in_a_row() {
    assert_eq!(
        update_client_config(&row(), Some(String::from("laptop")), 4242, Position::Right),
        ConfigUpdate { hostname: None, port: None, position: None }
    );
    assert_eq!(
        update_client_config(&row(), Some(String::from("desktop")), 4243, Position::Top),
        ConfigUpdate {
            hostname: Some(String::from("desktop")),
            port: Some(4243),
            position: Some(Position::Top)
        }
    );
    assert_eq!(
        update_client_config(&row(), None, 4242, Position::Right),
        ConfigUpdate { hostname: Some(String::new()), port: None, position: None }
    );
    let mut unnamed = row();
    unnamed.hostname = None;
    assert_eq!(
        update_client_config(&unnamed, None, 4242, Position::Right),
        ConfigUpdate { hostname: None, port: None, position: None }
    );
    // a row whose port does not fit 16 bits differs from every port
    unnamed.port = 0x1_1092;
    assert_eq!(
        update_client_config(&unnamed, None, 4242, Position::Right),
        ConfigUpdate { hostname: None, port: Some(4242), position: None }
    );

    assert_eq!(
        update_client_state(&row(), false, false, 0),
        StateUpdate { active: None, resolving: None, dns: DnsStyle::Warning }
    );
    assert_eq!(
        update_client_state(&row(), true, true, 2),
        StateUpdate { active: Some(true), resolving: Some(true), dns: DnsStyle::Success }
    );
}
