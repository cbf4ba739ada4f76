use lan_mouse::capture::{
    handle_capture_event, handle_proto_event, handle_request, CaptureAction, CaptureEvent,
    CaptureRequest, State,
};
use lan_mouse::client::{ClientConfig, ClientManager};
use lan_mouse::emulation::{
    activate_client_if_exists, begin_emulation, do_emulation_session, emulation_stopped,
    emulation_task, end_emulation, handle_udp_rx, release_all_keys, release_keys,
    update_client_keys, EmulationAction, EmulationEvent, SessionInput,
};
use lan_mouse::event::{InputEvent, KeyboardEvent, PointerEvent, Position, ProtoEvent, SocketAddress};
use lan_mouse::server::{IdleEvent, Mode, Server, Status, Supervision};

const K_B: u32 = 48;

fn addr_a() -> SocketAddress {
    SocketAddress::v4(10, 0, 0, 2, 4242)
}

fn key(key: u32, state: u8) -> InputEvent {
    InputEvent::Keyboard(KeyboardEvent::Key { time: 0, key, state })
}

fn key_up(key: u32) -> EmulationAction {
    EmulationAction::Consume(
        InputEvent::Keyboard(KeyboardEvent::Key { time: 0, key, state: 0 }),
        0,
    )
}

fn modifiers_clear(client: u64) -> EmulationAction {
    EmulationAction::Consume(
        InputEvent::Keyboard(KeyboardEvent::Modifiers {
            mods_depressed: 0,
            mods_latched: 0,
            mods_locked: 0,
            group: 0,
        }),
        client,
    )
}

/// A context with client `A` (handle 0) at the left edge, reachable at 10.0.0.2:4242.
fn server_with_a(mode: Mode) -> Server {
    let mut manager = ClientManager::new();
    assert_eq!(manager.add_client(ClientConfig::new(vec![addr_a()], Position::Left)), 0);
    let mut server = Server::new(manager, vec![]);
    server.state = mode;
    server
}

fn consumed(actions: &[EmulationAction]) -> usize {
    actions.iter().filter(|a| matches!(a, EmulationAction::Consume(..))).count()
}

#[test]
fn mutual_capture_collision() {
    let mut server = server_with_a(Mode::Sending);
    let mut last_ignored = None;
    let down = key(K_B, 1);

    let out = handle_udp_rx(&mut server, &mut last_ignored, (ProtoEvent::Input(down), addr_a()));

    assert!(out.contains(&EmulationAction::ReleaseCapture));
    assert_eq!(server.state, Mode::Receiving);
    assert!(out.contains(&EmulationAction::Consume(down, 0)));
    assert_eq!(
        out,
        vec![
            EmulationAction::ReleaseCapture,
            EmulationAction::RestartPingTimer,
            EmulationAction::Consume(down, 0),
        ]
    );
    assert!(server.client_manager.is_pressed(0, K_B));
}

#[test]
fn awaiting_leave_drain() {
    let mut server = server_with_a(Mode::AwaitingLeave);
    let mut last_ignored = None;
    let mut calls = 0;
    for event in [
        ProtoEvent::Input(key(K_B, 1)),
        ProtoEvent::Input(InputEvent::Pointer(PointerEvent::Frame)),
        ProtoEvent::Leave,
    ] {
        let out = handle_udp_rx(&mut server, &mut last_ignored, (event, addr_a()));
        calls += consumed(&out);
        assert_eq!(out, vec![]);
    }
    assert_eq!(calls, 0);
    assert_eq!(server.state, Mode::Sending);
    assert!(!server.client_manager.is_pressed(0, K_B));
}

#[test]
fn stuck_key_recovery() {
    let mut server = server_with_a(Mode::Receiving);
    let mut last_ignored = None;
    handle_udp_rx(&mut server, &mut last_ignored, (ProtoEvent::Input(key(17, 1)), addr_a()));
    handle_udp_rx(&mut server, &mut last_ignored, (ProtoEvent::Input(key(31, 1)), addr_a()));
    assert!(server.client_manager.is_pressed(0, 17));
    assert!(server.client_manager.is_pressed(0, 31));

    let out = end_emulation(&mut server);

    assert_eq!(out.len(), 4);
    assert_eq!(out[0], EmulationAction::Terminate);
    let mut ups = vec![out[1], out[2]];
    ups.sort_by_key(|a| match a {
        EmulationAction::Consume(InputEvent::Keyboard(KeyboardEvent::Key { key, .. }), _) => *key,
        _ => u32::MAX,
    });
    assert_eq!(ups, vec![key_up(17), key_up(31)]);
    assert_eq!(out[3], modifiers_clear(0));
    assert!(server.client_manager.get(0).unwrap().state.pressed_keys.is_empty());
}

#[test]
fn unknown_peer_filter() {
    let mut server = server_with_a(Mode::Receiving);
    let mut last_ignored = None;
    let stranger = SocketAddress::v4(192, 0, 2, 9, 4242);
    let other = SocketAddress::v4(192, 0, 2, 10, 4242);
    let down = ProtoEvent::Input(key(K_B, 1));

    let out = handle_udp_rx(&mut server, &mut last_ignored, (down, stranger));
    assert_eq!(out, vec![EmulationAction::LogIgnored(stranger)]);
    assert_eq!(server.state, Mode::Receiving);
    assert!(!server.client_manager.is_pressed(0, K_B));
    let client = server.client_manager.get(0).unwrap();
    assert!(!client.state.alive);
    assert_eq!(client.state.active_addr, None);

    let out = handle_udp_rx(&mut server, &mut last_ignored, (down, stranger));
    assert_eq!(out, vec![]);

    let out = handle_udp_rx(&mut server, &mut last_ignored, (down, other));
    assert_eq!(out, vec![EmulationAction::LogIgnored(other)]);

    // a known peer in between makes the first address reportable again
    let out = handle_udp_rx(&mut server, &mut last_ignored, (ProtoEvent::Pong, addr_a()));
    assert_eq!(out, vec![]);
    assert_eq!(last_ignored, None);
    let out = handle_udp_rx(&mut server, &mut last_ignored, (down, other));
    assert_eq!(out, vec![EmulationAction::LogIgnored(other)]);
}

#[test]
fn double_key_filter() {
    let mut server = server_with_a(Mode::Receiving);
    let mut last_ignored = None;
    let mut presses = 0;
    let mut releases = 0;
    // a release of a free key, two presses, two releases, a press, a release
    for state in [0u8, 1, 1, 0, 0, 1, 0] {
        let event = key(K_B, state);
        let out = handle_udp_rx(&mut server, &mut last_ignored, (ProtoEvent::Input(event), addr_a()));
        for action in out {
            match action {
                EmulationAction::Consume(e, 0) => {
                    assert_eq!(e, event);
                    if state == 0 {
                        releases += 1;
                    } else {
                        presses += 1;
                    }
                },
                EmulationAction::RestartPingTimer => assert!(state != 0),
                other => panic!("unexpected {other:?}"),
            }
        }
    }
    assert_eq!(presses, 2);
    assert_eq!(releases, 2);
    assert!(!server.client_manager.is_pressed(0, K_B));
}

#[test]
fn update_client_keys_results() {
    let mut manager = ClientManager::new();
    manager.add_client(ClientConfig::new(vec![], Position::Left));

    // (ignore, restart timer)
    assert_eq!(update_client_keys(&mut manager, 0, 30, 0), (true, false));
    assert_eq!(update_client_keys(&mut manager, 0, 30, 1), (false, true));
    assert_eq!(update_client_keys(&mut manager, 0, 30, 1), (true, true));
    assert_eq!(update_client_keys(&mut manager, 0, 31, 2), (false, true));
    assert_eq!(update_client_keys(&mut manager, 0, 30, 0), (false, true));
    assert_eq!(update_client_keys(&mut manager, 0, 30, 0), (true, true));
    assert_eq!(update_client_keys(&mut manager, 0, 31, 0), (false, false));
    // no such client
    assert_eq!(update_client_keys(&mut manager, 5, 30, 1), (true, false));
    assert!(!manager.is_pressed(5, 30));
}

#[test]
fn timer_restarts_while_another_key_is_held() {
    let mut server = server_with_a(Mode::Receiving);
    let mut last_ignored = None;
    handle_udp_rx(&mut server, &mut last_ignored, (ProtoEvent::Input(key(1, 1)), addr_a()));
    handle_udp_rx(&mut server, &mut last_ignored, (ProtoEvent::Input(key(2, 1)), addr_a()));
    let out = handle_udp_rx(&mut server, &mut last_ignored, (ProtoEvent::Input(key(2, 0)), addr_a()));
    assert_eq!(
        out,
        vec![EmulationAction::RestartPingTimer, EmulationAction::Consume(key(2, 0), 0)]
    );
    // a duplicate restarts the timer but is not forwarded
    let out = handle_udp_rx(&mut server, &mut last_ignored, (ProtoEvent::Input(key(1, 1)), addr_a()));
    assert_eq!(out, vec![EmulationAction::RestartPingTimer]);
    let out = handle_udp_rx(&mut server, &mut last_ignored, (ProtoEvent::Input(key(1, 0)), addr_a()));
    assert_eq!(out, vec![EmulationAction::Consume(key(1, 0), 0)]);
}

#[test]
fn dispatch_by_event() {
    for mode in [Mode::Sending, Mode::Receiving, Mode::AwaitingLeave] {
        let mut server = server_with_a(mode);
        let mut last_ignored = None;
        assert_eq!(handle_udp_rx(&mut server, &mut last_ignored, (ProtoEvent::Pong, addr_a())), vec![]);
        assert_eq!(
            handle_udp_rx(&mut server, &mut last_ignored, (ProtoEvent::Ping, addr_a())),
            vec![EmulationAction::Send(ProtoEvent::Pong, addr_a())]
        );
        assert_eq!(
            handle_udp_rx(&mut server, &mut last_ignored, (ProtoEvent::Disconnect, addr_a())),
            vec![modifiers_clear(0)]
        );
        assert_eq!(server.state, mode);
        let client = server.client_manager.get(0).unwrap();
        assert!(client.state.alive);
        assert_eq!(client.state.active_addr, Some(addr_a()));
    }
}

#[test]
fn enter_is_answered_in_every_mode() {
    let leave = EmulationAction::Send(ProtoEvent::Leave, addr_a());
    let enter = ProtoEvent::Enter(Position::Right);

    let mut server = server_with_a(Mode::Sending);
    let out = handle_udp_rx(&mut server, &mut None, (enter, addr_a()));
    assert_eq!(out, vec![leave, EmulationAction::ReleaseCapture]);
    assert_eq!(server.state, Mode::Receiving);

    let mut server = server_with_a(Mode::Receiving);
    let out = handle_udp_rx(&mut server, &mut None, (enter, addr_a()));
    assert_eq!(out, vec![leave]);
    assert_eq!(server.state, Mode::Receiving);

    let mut server = server_with_a(Mode::AwaitingLeave);
    let out = handle_udp_rx(&mut server, &mut None, (enter, addr_a()));
    assert_eq!(out, vec![leave, EmulationAction::ReleaseCapture]);
    assert_eq!(server.state, Mode::Receiving);
}

#[test]
fn leave_while_sending_is_redundant() {
    let mut server = server_with_a(Mode::Sending);
    let out = handle_udp_rx(&mut server, &mut None, (ProtoEvent::Leave, addr_a()));
    assert_eq!(out, vec![]);
    assert_eq!(server.state, Mode::Sending);
}

#[test]
fn other_input_is_forwarded_while_receiving() {
    let mut server = server_with_a(Mode::Receiving);
    let motion = InputEvent::Pointer(PointerEvent::Motion { time: 1, dx_bits: 2, dy_bits: 3 });
    let mods = InputEvent::Keyboard(KeyboardEvent::Modifiers {
        mods_depressed: 1,
        mods_latched: 0,
        mods_locked: 0,
        group: 0,
    });
    for input in [motion, mods] {
        let out = handle_udp_rx(&mut server, &mut None, (ProtoEvent::Input(input), addr_a()));
        assert_eq!(out, vec![EmulationAction::Consume(input, 0)]);
    }
    let out = handle_udp_rx(&mut server, &mut None, (ProtoEvent::Leave, addr_a()));
    assert_eq!(out, vec![]);
    let out = handle_udp_rx(&mut server, &mut None, (ProtoEvent::Ack(0), addr_a()));
    assert_eq!(out, vec![]);
    assert_eq!(server.state, Mode::Receiving);
}

#[test]
fn disconnect_releases_the_peers_keys() {
    let mut server = server_with_a(Mode::Receiving);
    handle_udp_rx(&mut server, &mut None, (ProtoEvent::Input(key(17, 1)), addr_a()));
    let out = handle_udp_rx(&mut server, &mut None, (ProtoEvent::Disconnect, addr_a()));
    assert_eq!(out, vec![key_up(17), modifiers_clear(0)]);
    assert!(!server.client_manager.is_pressed(0, 17));
}

#[test]
fn address_stickiness() {
    let mut manager = ClientManager::new();
    let shared = SocketAddress::v4(10, 0, 0, 7, 4242);
    let second = SocketAddress::v4(10, 0, 0, 8, 4242);
    manager.add_client(ClientConfig::new(vec![shared, second], Position::Left));
    manager.add_client(ClientConfig::new(vec![shared], Position::Right));
    let mut last_ignored = None;

    assert_eq!(activate_client_if_exists(&mut manager, shared, &mut last_ignored), (Some(0), false));
    assert_eq!(manager.get(0).unwrap().state.active_addr, Some(shared));
    assert!(manager.get(0).unwrap().state.alive);
    assert_eq!(manager.get(1).unwrap().state.active_addr, None);
    // the same address goes to the same client again
    assert_eq!(activate_client_if_exists(&mut manager, shared, &mut last_ignored), (Some(0), false));
    // another address of the client becomes its active one
    assert_eq!(activate_client_if_exists(&mut manager, second, &mut last_ignored), (Some(0), false));
    assert_eq!(manager.get(0).unwrap().state.active_addr, Some(second));
    // once the registry is changed, so may the route
    assert!(manager.remove_client(0).is_some());
    assert_eq!(activate_client_if_exists(&mut manager, shared, &mut last_ignored), (Some(1), false));
    assert_eq!(
        activate_client_if_exists(&mut manager, second, &mut last_ignored),
        (None, true)
    );
    assert_eq!(last_ignored, Some(second));
    assert_eq!(
        activate_client_if_exists(&mut manager, second, &mut last_ignored),
        (None, false)
    );
}

#[test]
fn release_keys_of_unknown_client_clears_modifiers_only() {
    let mut manager = ClientManager::new();
    assert_eq!(release_keys(&mut manager, 3), vec![modifiers_clear(3)]);
}

#[test]
fn release_all_keys_goes_through_the_clients_in_order() {
    let mut manager = ClientManager::new();
    manager.add_client(ClientConfig::new(vec![], Position::Left));
    manager.add_client(ClientConfig::new(vec![], Position::Right));
    manager.add_client(ClientConfig::new(vec![], Position::Top));
    manager.remove_client(1);
    update_client_keys(&mut manager, 2, 44, 1);
    let mut server = Server::new(manager, vec![]);

    let out = release_all_keys(&mut server);
    assert_eq!(
        out,
        vec![
            modifiers_clear(0),
            EmulationAction::Consume(key(44, 0), 2),
            modifiers_clear(2),
        ]
    );
    assert!(!server.client_manager.is_pressed(2, 44));
    // nothing is held any more: a second round clears modifiers only
    assert_eq!(release_all_keys(&mut server), vec![modifiers_clear(0), modifiers_clear(2)]);
}

#[test]
fn no_stuck_keys_after_teardown() {
    let mut manager = ClientManager::new();
    let b = SocketAddress::v4(10, 0, 0, 3, 4242);
    manager.add_client(ClientConfig::new(vec![addr_a()], Position::Left));
    manager.add_client(ClientConfig::new(vec![b], Position::Right));
    let mut server = Server::new(manager, vec![]);
    let mut last_ignored = None;
    let mut all = Vec::new();

    let inputs = [
        SessionInput::Datagram(ProtoEvent::Input(key(1, 1)), addr_a()),
        SessionInput::Datagram(ProtoEvent::Input(key(1, 1)), b),
        SessionInput::Datagram(ProtoEvent::Input(key(2, 1)), addr_a()),
        SessionInput::NetworkError,
        SessionInput::Datagram(ProtoEvent::Input(key(2, 0)), addr_a()),
        SessionInput::Datagram(ProtoEvent::Input(key(3, 1)), b),
        SessionInput::Request(EmulationEvent::ReleaseKeys(1)),
        SessionInput::Datagram(ProtoEvent::Input(key(5, 1)), b),
    ];
    for input in inputs {
        let (out, done) = do_emulation_session(&mut server, &mut last_ignored, input);
        assert!(!done);
        all.extend(out);
    }
    all.extend(end_emulation(&mut server));

    for client in [0u64, 1] {
        assert!(server.client_manager.get(client).unwrap().state.pressed_keys.is_empty());
        for k in 0..8u32 {
            let downs = all
                .iter()
                .filter(|a| matches!(a, EmulationAction::Consume(InputEvent::Keyboard(KeyboardEvent::Key { key, state, .. }), c) if *c == client && *key == k && *state != 0))
                .count();
            let ups = all
                .iter()
                .filter(|a| matches!(a, EmulationAction::Consume(InputEvent::Keyboard(KeyboardEvent::Key { key, state, .. }), c) if *c == client && *key == k && *state == 0))
                .count();
            assert_eq!(downs, ups, "client {client} key {k}");
        }
    }
}

#[test]
fn session_requests_and_end() {
    let mut server = server_with_a(Mode::Receiving);
    let mut last_ignored = None;
    assert_eq!(
        do_emulation_session(
            &mut server,
            &mut last_ignored,
            SessionInput::Request(EmulationEvent::Create(4))
        ),
        (vec![EmulationAction::Create(4)], false)
    );
    assert_eq!(
        do_emulation_session(
            &mut server,
            &mut last_ignored,
            SessionInput::Request(EmulationEvent::Destroy(4))
        ),
        (vec![EmulationAction::Destroy(4)], false)
    );
    assert_eq!(
        do_emulation_session(&mut server, &mut last_ignored, SessionInput::NetworkError),
        (vec![], false)
    );
    assert_eq!(
        do_emulation_session(&mut server, &mut last_ignored, SessionInput::Cancelled),
        (vec![], true)
    );
}

#[test]
fn session_begin_and_supervision() {
    let mut manager = ClientManager::new();
    manager.add_client(ClientConfig::new(vec![], Position::Left));
    manager.add_client(ClientConfig::new(vec![], Position::Right));
    manager.add_client(ClientConfig::new(vec![], Position::Top));
    manager.set_active(1, true);
    manager.set_active(2, true);
    let mut server = Server::new(manager, vec![]);

    assert_eq!(
        begin_emulation(&mut server),
        vec![EmulationAction::Create(1), EmulationAction::Create(2)]
    );
    assert_eq!(server.emulation_status, Status::Enabled);

    assert!(!emulation_stopped(&mut server));
    assert_eq!(server.emulation_status, Status::Disabled);
    server.cancel();
    assert!(emulation_stopped(&mut server));

    assert_eq!(emulation_task(IdleEvent::Request), Supervision::Wait);
    assert_eq!(emulation_task(IdleEvent::Closed), Supervision::Wait);
    assert_eq!(emulation_task(IdleEvent::Enabled), Supervision::Restart);
    assert_eq!(emulation_task(IdleEvent::Cancelled), Supervision::Stop);
}

#[test]
fn round_trip() {
    // the capturing side knows the peer as client 0, to its right
    let mut manager = ClientManager::new();
    manager.add_client(ClientConfig::new(vec![SocketAddress::v4(10, 0, 0, 3, 4242)], Position::Right));
    let mut local = Server::new(manager, vec![]);
    let mut state = State::Idle;
    // the peer knows the capturing side as its client 0, at 10.0.0.2:4242
    let mut peer = server_with_a(Mode::Sending);
    let mut last_ignored = None;

    let out = handle_capture_event(&mut local, &mut state, (0, CaptureEvent::Begin), false);
    assert_eq!(out, vec![CaptureAction::Send(ProtoEvent::Enter(Position::Right), 0)]);
    let CaptureAction::Send(enter, 0) = out[0] else { panic!("no enter") };

    let answer = handle_udp_rx(&mut peer, &mut last_ignored, (enter, addr_a()));
    assert_eq!(
        answer,
        vec![EmulationAction::Send(ProtoEvent::Leave, addr_a()), EmulationAction::ReleaseCapture]
    );
    assert_eq!(peer.state, Mode::Receiving);

    assert_eq!(handle_proto_event(&mut local, &mut state, (0, ProtoEvent::Ack(0))), vec![]);
    assert_eq!(state, State::Sending);

    let input = key(K_B, 1);
    let out = handle_capture_event(&mut local, &mut state, (0, CaptureEvent::Input(input)), false);
    assert_eq!(out, vec![CaptureAction::Send(ProtoEvent::Input(input), 0)]);
    let CaptureAction::Send(forwarded, 0) = out[0] else { panic!("no input") };

    let consumed = handle_udp_rx(&mut peer, &mut last_ignored, (forwarded, addr_a()));
    assert_eq!(consumed.last(), Some(&EmulationAction::Consume(input, 0)));
}

#[test]
fn release_request_follows_input_from_a_peer() {
    let mut server = server_with_a(Mode::Sending);
    server.set_active(Some(0));
    let mut state = State::Sending;
    let motion = InputEvent::Pointer(PointerEvent::Frame);

    let out = handle_udp_rx(&mut server, &mut None, (ProtoEvent::Input(motion), addr_a()));
    assert_eq!(out[0], EmulationAction::ReleaseCapture);
    assert_eq!(server.state, Mode::Receiving);

    let out = handle_request(&mut server, &mut state, CaptureRequest::Release);
    assert_eq!(out, vec![CaptureAction::Release]);
    assert_eq!(state, State::Idle);
    assert_eq!(server.get_active(), None);
}
