use gui_controller::action::Action;
use gui_controller::action::End;
use gui_controller::action::Fault;
use gui_controller::action::Outcome;
use gui_controller::controller::Controller;
use gui_controller::gui;
use gui_controller::request::ControllerRequest;
use gui_controller::request::EventloopTick;
use gui_controller::resource::Resource;
use gui_controller::resource::ResourceId;
use gui_controller::resource::ResourceKind;
use gui_controller::secret::Token;
use gui_controller::service::ClientMsg;
use gui_controller::service::ConnectError;
use gui_controller::service::IpAddress;
use gui_controller::service::ServerMsg;
use gui_controller::settings::AdvancedSettings;
use gui_controller::status::Status;
use gui_controller::system_tray::Event;
use gui_controller::gui::HandoffError;
use std::time::Duration;
use std::time::Instant;

fn settings() -> AdvancedSettings {
    AdvancedSettings {
        api_url: "wss://api.example.test/".to_owned(),
        auth_base_url: "https://app.example.test/".to_owned(),
        log_filter: "info".to_owned(),
        favorite_resources: Default::default(),
        internet_resource_enabled: None,
    }
}

fn token(text: &str) -> Token {
    Token::new(text.to_owned())
}

fn shapes(outcome: &Outcome) -> Vec<String> {
    outcome.actions.iter().map(|action| format!("{:?}", action)).collect()
}

fn resource(id: u128, kind: ResourceKind, name: &str) -> Resource {
    Resource { id: ResourceId(id), kind, name: name.to_owned(), address: format!("{name}.test") }
}

fn waiting_for_portal(text: &str, at: Instant) -> Controller {
    let mut controller = Controller::new(settings());
    let outcome = controller.start_session(token(text), at);
    assert_eq!(outcome.end, End::Continue);
    controller
}

fn waiting_for_tunnel(at: Instant) -> Controller {
    let mut controller = waiting_for_portal("T", at);
    controller.handle_service_ipc_msg(ServerMsg::ConnectResult(Ok(())));
    controller
}

fn tunnel_ready(resources: Vec<Resource>) -> Controller {
    let mut controller = waiting_for_tunnel(Instant::now());
    controller.handle_service_ipc_msg(ServerMsg::TunnelReady);
    controller.handle_service_ipc_msg(ServerMsg::OnUpdateResources(resources));
    controller
}

fn retrying(text: &str) -> Controller {
    let mut controller = waiting_for_portal(text, Instant::now());
    controller.handle_service_ipc_msg(ServerMsg::ConnectResult(Err(ConnectError::Io(
        "no route".to_owned(),
    ))));
    controller
}

fn quitting() -> Controller {
    let mut controller = Controller::new(settings());
    controller.handle_request(
        ControllerRequest::SystemTrayMenu(Event::Quit),
        Instant::now(),
    );
    controller
}

fn sends_connect(outcome: &Outcome) -> bool {
    outcome
        .actions
        .iter()
        .any(|action| matches!(action, Action::Send(ClientMsg::Connect { .. })))
}

#[test]
fn a_new_controller_is_disconnected() {
    let controller = Controller::new(settings());
    assert!(matches!(controller.status(), Status::Disconnected));
    assert!(matches!(Status::default(), Status::Disconnected));
    assert_eq!(controller.release(), &None);
    assert!(!controller.awaiting_cleared_logs());
    assert_eq!(controller.advanced_settings(), &settings());
}

#[test]
fn a_session_comes_up() {
    let start = Instant::now();
    let mut controller = Controller::new(settings());

    let outcome = controller.start_session(token("T"), start);
    assert_eq!(outcome.end, End::Continue);
    assert_eq!(outcome.actions.len(), 3);
    match &outcome.actions[0] {
        Action::Send(ClientMsg::Connect { api_url, token }) => {
            assert_eq!(api_url, "wss://api.example.test/");
            assert_eq!(token.expose_secret(), "T");
        }
        other => panic!("{:?}", other),
    }
    assert!(matches!(outcome.actions[1], Action::NotifySignedIn));
    assert!(matches!(outcome.actions[2], Action::RefreshTrayMenu));
    match controller.status() {
        Status::WaitingForPortal { start_instant, token } => {
            assert_eq!(*start_instant, start);
            assert_eq!(token.expose_secret(), "T");
        }
        other => panic!("{:?}", other),
    }

    let outcome = controller.handle_service_ipc_msg(ServerMsg::ConnectResult(Ok(())));
    assert_eq!(outcome.end, End::Continue);
    assert_eq!(shapes(&outcome), vec!["MarkConnectedOnce", "RefreshTrayMenu"]);
    match controller.status() {
        Status::WaitingForTunnel { start_instant } => assert_eq!(*start_instant, start),
        other => panic!("{:?}", other),
    }

    let outcome = controller.handle_service_ipc_msg(ServerMsg::TunnelReady);
    assert_eq!(outcome.end, End::Continue);
    assert_eq!(outcome.actions.len(), 2);
    match &outcome.actions[0] {
        Action::ShowNotification { title, body } => {
            assert_eq!(title, "Firezone connected");
            assert_eq!(body, "You are now signed in and able to access resources.");
        }
        other => panic!("{:?}", other),
    }
    assert!(matches!(outcome.actions[1], Action::RefreshTrayMenu));
    match controller.status() {
        Status::TunnelReady { resources } => assert!(resources.is_empty()),
        other => panic!("{:?}", other),
    }
}

#[test]
fn io_failure_retries_on_network_change() {
    let mut controller = waiting_for_portal("T", Instant::now());

    let outcome = controller.handle_service_ipc_msg(ServerMsg::ConnectResult(Err(
        ConnectError::Io("no route".to_owned()),
    )));
    assert_eq!(outcome.end, End::Continue);
    assert_eq!(shapes(&outcome), vec!["RefreshTrayMenu"]);
    match controller.status() {
        Status::RetryingConnection { token } => assert_eq!(token.expose_secret(), "T"),
        other => panic!("{:?}", other),
    }

    let retry_at = Instant::now() + Duration::from_secs(3);
    let outcome = controller.handle_tick(EventloopTick::NetworkChanged(Ok(())), retry_at);
    assert_eq!(outcome.end, End::Continue);
    assert_eq!(outcome.actions.len(), 3);
    match &outcome.actions[0] {
        Action::Send(ClientMsg::Connect { api_url, token }) => {
            assert_eq!(api_url, "wss://api.example.test/");
            assert_eq!(token.expose_secret(), "T");
        }
        other => panic!("{:?}", other),
    }
    match controller.status() {
        Status::WaitingForPortal { start_instant, token } => {
            assert_eq!(*start_instant, retry_at);
            assert_eq!(token.expose_secret(), "T");
        }
        other => panic!("{:?}", other),
    }
}

#[test]
fn dns_change_retries_too() {
    let mut controller = retrying("T");
    let outcome = controller.handle_tick(
        EventloopTick::DnsChanged(Ok(vec![IpAddress::V4(0x0808_0808)])),
        Instant::now(),
    );
    assert_eq!(outcome.actions.len(), 3);
    assert!(sends_connect(&outcome));
    assert!(!outcome
        .actions
        .iter()
        .any(|action| matches!(action, Action::Send(ClientMsg::SetDns(_)))));
    assert!(matches!(controller.status(), Status::WaitingForPortal { .. }));
}

#[test]
fn retry_from_the_tray_menu() {
    let mut controller = retrying("T");
    let outcome = controller.handle_request(
        ControllerRequest::SystemTrayMenu(Event::RetryPortalConnection),
        Instant::now(),
    );
    assert!(sends_connect(&outcome));
    assert!(matches!(controller.status(), Status::WaitingForPortal { .. }));

    let mut idle = Controller::new(settings());
    let outcome = idle.handle_request(
        ControllerRequest::SystemTrayMenu(Event::RetryPortalConnection),
        Instant::now(),
    );
    assert!(outcome.actions.is_empty());
    assert_eq!(outcome.end, End::Continue);
    assert!(matches!(idle.status(), Status::Disconnected));
}

#[test]
fn dns_change_while_tunnel_is_up() {
    let snapshot = vec![resource(1, ResourceKind::Dns, "wiki")];
    let mut controller = tunnel_ready(snapshot);
    let resolvers = vec![IpAddress::V4(0x0101_0101), IpAddress::V6(1)];

    let outcome =
        controller.handle_tick(EventloopTick::DnsChanged(Ok(resolvers.clone())), Instant::now());
    assert_eq!(outcome.end, End::Continue);
    assert_eq!(outcome.actions.len(), 1);
    match &outcome.actions[0] {
        Action::Send(ClientMsg::SetDns(sent)) => assert_eq!(sent, &resolvers),
        other => panic!("{:?}", other),
    }
    match controller.status() {
        Status::TunnelReady { resources } => {
            assert_eq!(resources, &vec![resource(1, ResourceKind::Dns, "wiki")])
        }
        other => panic!("{:?}", other),
    }
}

#[test]
fn network_change_resets_while_connecting_or_connected() {
    for mut controller in [
        waiting_for_portal("T", Instant::now()),
        waiting_for_tunnel(Instant::now()),
        tunnel_ready(vec![]),
    ] {
        let before = format!("{:?}", controller.status());
        let outcome = controller.handle_tick(EventloopTick::NetworkChanged(Ok(())), Instant::now());
        assert_eq!(outcome.end, End::Continue);
        assert_eq!(shapes(&outcome), vec!["Send(Reset)"]);
        assert_eq!(format!("{:?}", controller.status()), before);
    }
}

#[test]
fn network_and_dns_changes_are_ignored_without_a_session() {
    for mut controller in [Controller::new(settings()), quitting()] {
        let before = format!("{:?}", controller.status());
        let outcome = controller.handle_tick(EventloopTick::NetworkChanged(Ok(())), Instant::now());
        assert!(outcome.actions.is_empty());
        assert_eq!(outcome.end, End::Continue);
        let outcome = controller.handle_tick(
            EventloopTick::DnsChanged(Ok(vec![IpAddress::V4(1)])),
            Instant::now(),
        );
        assert!(outcome.actions.is_empty());
        assert_eq!(outcome.end, End::Continue);
        assert_eq!(format!("{:?}", controller.status()), before);
    }
}

#[test]
fn a_new_instance_is_always_acknowledged() {
    let controller = Controller::new(settings());

    let handoff = controller
        .handle_gui_ipc_msg(Some(Ok(gui::ClientMsg::Deeplink("not a callback".to_owned()))));
    assert_eq!(handoff.reply, gui::ServerMsg::Ack);
    let actions = handoff.handled.unwrap();
    assert_eq!(actions.len(), 1);
    match &actions[0] {
        Action::HandleAuthCallback(url) => assert_eq!(url, "not a callback"),
        other => panic!("{:?}", other),
    }

    let handoff = controller.handle_gui_ipc_msg(Some(Ok(gui::ClientMsg::NewInstance)));
    assert_eq!(handoff.reply, gui::ServerMsg::Ack);
    let actions = handoff.handled.unwrap();
    assert_eq!(actions.len(), 1);
    assert!(matches!(actions[0], Action::SetWelcomeWindowVisible(true)));

    let handoff = controller.handle_gui_ipc_msg(None);
    assert_eq!(handoff.reply, gui::ServerMsg::Ack);
    assert_eq!(handoff.handled.unwrap_err(), HandoffError::NoMessage);

    let handoff = controller.handle_gui_ipc_msg(Some(Err("broken pipe".to_owned())));
    assert_eq!(handoff.reply, gui::ServerMsg::Ack);
    assert_eq!(
        handoff.handled.unwrap_err(),
        HandoffError::ReadFailed("broken pipe".to_owned())
    );
}

#[test]
fn sign_out_while_retrying() {
    let mut controller = retrying("T");
    let outcome = controller.handle_request(ControllerRequest::SignOut, Instant::now());
    assert_eq!(outcome.end, End::Continue);
    assert_eq!(
        shapes(&outcome),
        vec!["SignOut", "NotifySignedOut", "Send(Disconnect)", "RefreshTrayMenu"]
    );
    assert!(matches!(controller.status(), Status::Disconnected));
}

#[test]
fn sign_out_asks_for_the_same_from_every_status() {
    let expected = vec!["SignOut", "NotifySignedOut", "Send(Disconnect)", "RefreshTrayMenu"];
    for mut controller in [
        Controller::new(settings()),
        retrying("T"),
        waiting_for_portal("T", Instant::now()),
        waiting_for_tunnel(Instant::now()),
        tunnel_ready(vec![]),
    ] {
        let outcome = controller.sign_out();
        assert_eq!(outcome.end, End::Continue);
        assert_eq!(shapes(&outcome), expected);
        assert!(matches!(controller.status(), Status::Disconnected));

        let again = controller.sign_out();
        assert_eq!(again.end, End::Continue);
        assert_eq!(shapes(&again), expected);
        assert!(matches!(controller.status(), Status::Disconnected));
    }
}

#[test]
fn sign_out_does_nothing_while_quitting() {
    let mut controller = quitting();
    let outcome = controller.sign_out();
    assert!(outcome.actions.is_empty());
    assert_eq!(outcome.end, End::Continue);
    assert!(matches!(controller.status(), Status::Quitting));
}

#[test]
fn start_session_is_refused_outside_disconnected_and_retrying() {
    let cases: Vec<(Controller, Fault)> = vec![
        (quitting(), Fault::Quitting),
        (tunnel_ready(vec![]), Fault::AlreadyConnected),
        (waiting_for_portal("T", Instant::now()), Fault::AlreadyConnecting),
        (waiting_for_tunnel(Instant::now()), Fault::AlreadyConnecting),
    ];
    for (mut controller, fault) in cases {
        let before = format!("{:?}", controller.status());
        let outcome = controller.start_session(token("other"), Instant::now());
        assert!(outcome.actions.is_empty());
        assert_eq!(outcome.end, End::Fail(fault));
        assert_eq!(format!("{:?}", controller.status()), before);
    }
}

#[test]
fn start_session_replaces_the_token_of_a_retry() {
    let mut controller = retrying("old");
    let outcome = controller.start_session(token("new"), Instant::now());
    assert_eq!(outcome.end, End::Continue);
    match &outcome.actions[0] {
        Action::Send(ClientMsg::Connect { token, .. }) => assert_eq!(token.expose_secret(), "new"),
        other => panic!("{:?}", other),
    }
    match controller.status() {
        Status::WaitingForPortal { token, .. } => assert_eq!(token.expose_secret(), "new"),
        other => panic!("{:?}", other),
    }
}

#[test]
fn other_connect_failure_signs_out() {
    let mut controller = waiting_for_portal("T", Instant::now());
    let outcome = controller.handle_service_ipc_msg(ServerMsg::ConnectResult(Err(
        ConnectError::Other("portal said no".to_owned()),
    )));
    assert_eq!(outcome.end, End::Continue);
    assert_eq!(
        shapes(&outcome),
        vec!["SignOut", "NotifySignedOut", "Send(Disconnect)", "RefreshTrayMenu"]
    );
    assert!(matches!(controller.status(), Status::Disconnected));
}

#[test]
fn connect_result_is_ignored_outside_waiting_for_portal() {
    for result in [
        Ok(()),
        Err(ConnectError::Io("x".to_owned())),
        Err(ConnectError::Other("y".to_owned())),
    ] {
        for mut controller in [
            Controller::new(settings()),
            retrying("T"),
            quitting(),
            waiting_for_tunnel(Instant::now()),
            tunnel_ready(vec![]),
        ] {
            let before = format!("{:?}", controller.status());
            let copy = match &result {
                Ok(()) => Ok(()),
                Err(ConnectError::Io(text)) => Err(ConnectError::Io(text.clone())),
                Err(ConnectError::Other(text)) => Err(ConnectError::Other(text.clone())),
            };
            let outcome = controller.handle_connect_result(copy);
            assert!(outcome.actions.is_empty());
            assert_eq!(outcome.end, End::Continue);
            assert_eq!(format!("{:?}", controller.status()), before);
        }
    }
}

#[test]
fn tunnel_ready_is_taken_while_a_session_comes_up_only() {
    let mut from_portal = waiting_for_portal("T", Instant::now());
    let outcome = from_portal.handle_service_ipc_msg(ServerMsg::TunnelReady);
    assert_eq!(outcome.actions.len(), 2);
    assert!(matches!(from_portal.status(), Status::TunnelReady { resources } if resources.is_empty()));

    for mut controller in [Controller::new(settings()), retrying("T"), quitting()] {
        let before = format!("{:?}", controller.status());
        let outcome = controller.handle_service_ipc_msg(ServerMsg::TunnelReady);
        assert!(outcome.actions.is_empty());
        assert_eq!(outcome.end, End::Continue);
        assert_eq!(format!("{:?}", controller.status()), before);
    }

    let mut up = tunnel_ready(vec![resource(7, ResourceKind::Cidr, "lan")]);
    let outcome = up.handle_service_ipc_msg(ServerMsg::TunnelReady);
    assert!(outcome.actions.is_empty());
    assert!(matches!(up.status(), Status::TunnelReady { resources } if resources.len() == 1));
}

#[test]
fn resources_are_dropped_unless_the_tunnel_is_up_or_being_raised() {
    for mut controller in [
        Controller::new(settings()),
        retrying("T"),
        quitting(),
        waiting_for_portal("T", Instant::now()),
    ] {
        let before = format!("{:?}", controller.status());
        let outcome = controller.handle_tick(
            EventloopTick::IpcMsg(Some(Ok(ServerMsg::OnUpdateResources(vec![resource(
                1,
                ResourceKind::Internet,
                "internet",
            )])))),
            Instant::now(),
        );
        assert!(outcome.actions.is_empty());
        assert_eq!(outcome.end, End::Continue);
        assert_eq!(format!("{:?}", controller.status()), before);
    }
}

#[test]
fn resources_replace_the_snapshot_before() {
    let mut controller = waiting_for_tunnel(Instant::now());
    let first = vec![resource(1, ResourceKind::Dns, "a"), resource(2, ResourceKind::Cidr, "b")];
    let outcome = controller.handle_service_ipc_msg(ServerMsg::OnUpdateResources(first));
    assert_eq!(shapes(&outcome), vec!["RefreshTrayMenu", "SaveSettings"]);
    assert!(matches!(controller.status(), Status::TunnelReady { resources } if resources.len() == 2));

    let second = vec![resource(3, ResourceKind::Dns, "c")];
    controller.handle_service_ipc_msg(ServerMsg::OnUpdateResources(second));
    match controller.status() {
        Status::TunnelReady { resources } => {
            assert_eq!(resources, &vec![resource(3, ResourceKind::Dns, "c")])
        }
        other => panic!("{:?}", other),
    }
}

#[test]
fn internet_resource_is_disabled_until_switched_on() {
    let snapshot = vec![
        resource(1, ResourceKind::Dns, "a"),
        resource(9, ResourceKind::Internet, "internet"),
        resource(10, ResourceKind::Internet, "second"),
    ];
    let mut controller = waiting_for_tunnel(Instant::now());
    let outcome = controller.handle_service_ipc_msg(ServerMsg::OnUpdateResources(snapshot));
    assert_eq!(
        shapes(&outcome),
        vec![
            "RefreshTrayMenu",
            "SaveSettings",
            "Send(SetDisabledResources({9}))",
            "RefreshTrayMenu"
        ]
    );
    assert_eq!(controller.status().internet_resource().unwrap().id(), ResourceId(9));

    let outcome = controller.handle_request(
        ControllerRequest::SystemTrayMenu(Event::EnableInternetResource),
        Instant::now(),
    );
    assert_eq!(
        shapes(&outcome),
        vec!["SaveSettings", "Send(SetDisabledResources({}))", "RefreshTrayMenu"]
    );
    assert_eq!(controller.advanced_settings().internet_resource_enabled, Some(true));

    let outcome = controller.handle_request(
        ControllerRequest::SystemTrayMenu(Event::DisableInternetResource),
        Instant::now(),
    );
    assert_eq!(
        shapes(&outcome),
        vec!["SaveSettings", "Send(SetDisabledResources({9}))", "RefreshTrayMenu"]
    );
    assert_eq!(controller.advanced_settings().internet_resource_enabled, Some(false));
}

#[test]
fn internet_switch_without_a_tunnel_only_saves() {
    let mut controller = Controller::new(settings());
    let outcome = controller.handle_request(
        ControllerRequest::SystemTrayMenu(Event::EnableInternetResource),
        Instant::now(),
    );
    assert_eq!(shapes(&outcome), vec!["SaveSettings"]);
    assert_eq!(controller.advanced_settings().internet_resource_enabled, Some(true));
    assert!(controller.status().internet_resource().is_none());
}

#[test]
fn quitting_sends_disconnect_and_waits_for_the_confirmation() {
    let mut controller = tunnel_ready(vec![]);
    let outcome = controller.handle_request(
        ControllerRequest::SystemTrayMenu(Event::Quit),
        Instant::now(),
    );
    assert_eq!(outcome.end, End::Continue);
    assert_eq!(shapes(&outcome), vec!["Send(Disconnect)", "RefreshTrayMenu"]);
    assert!(matches!(controller.status(), Status::Quitting));

    let outcome = controller.handle_tick(
        EventloopTick::IpcMsg(Some(Ok(ServerMsg::Hello))),
        Instant::now(),
    );
    assert_eq!(outcome.end, End::Continue);

    let outcome = controller.handle_tick(
        EventloopTick::IpcMsg(Some(Ok(ServerMsg::DisconnectedGracefully))),
        Instant::now(),
    );
    assert!(outcome.actions.is_empty());
    assert_eq!(outcome.end, End::Break);
}

#[test]
fn disconnected_gracefully_goes_on_unless_quitting() {
    for mut controller in [Controller::new(settings()), tunnel_ready(vec![]), retrying("T")] {
        let before = format!("{:?}", controller.status());
        let outcome = controller.handle_service_ipc_msg(ServerMsg::DisconnectedGracefully);
        assert!(outcome.actions.is_empty());
        assert_eq!(outcome.end, End::Continue);
        assert_eq!(format!("{:?}", controller.status()), before);
    }
}

#[test]
fn nothing_connects_after_quitting() {
    let mut controller = quitting();
    let now = Instant::now();

    let outcome = controller.start_session(token("T"), now);
    assert_eq!(outcome.end, End::Fail(Fault::Quitting));
    assert!(!sends_connect(&outcome));

    let outcome = controller.handle_deep_link(&token("T"), None, "1.0.0".to_owned());
    assert_eq!(outcome.end, End::Fail(Fault::Quitting));
    assert!(!sends_connect(&outcome));
    let outcome = controller.connect_sent(token("T"), now);
    assert_eq!(outcome.end, End::Fail(Fault::Quitting));
    assert!(outcome.actions.is_empty());
    assert!(matches!(controller.status(), Status::Quitting));

    let ticks = vec![
        EventloopTick::NetworkChanged(Ok(())),
        EventloopTick::DnsChanged(Ok(vec![])),
        EventloopTick::IpcMsg(Some(Ok(ServerMsg::ConnectResult(Ok(()))))),
        EventloopTick::IpcMsg(Some(Ok(ServerMsg::TunnelReady))),
        EventloopTick::IpcMsg(Some(Ok(ServerMsg::OnUpdateResources(vec![])))),
        EventloopTick::IpcMsg(Some(Ok(ServerMsg::OnDisconnect {
            error_msg: "gone".to_owned(),
            is_authentication_error: true,
        }))),
        EventloopTick::ControllerRequest(Some(ControllerRequest::SignIn)),
        EventloopTick::ControllerRequest(Some(ControllerRequest::SignOut)),
        EventloopTick::ControllerRequest(Some(ControllerRequest::SystemTrayMenu(
            Event::RetryPortalConnection,
        ))),
        EventloopTick::ControllerRequest(Some(ControllerRequest::SystemTrayMenu(
            Event::CancelSignIn,
        ))),
        EventloopTick::UpdateNotification(Some(None)),
        EventloopTick::NewInstanceLaunched(Some(Ok(()))),
    ];
    for tick in ticks {
        let outcome = controller.handle_tick(tick, now);
        assert!(!sends_connect(&outcome), "{:?}", outcome);
        assert_ne!(outcome.end, End::Break);
        assert!(matches!(controller.status(), Status::Quitting));
    }
}

#[test]
fn service_shutdown_ends_the_loop_with_a_fault_in_every_status() {
    for mut controller in [Controller::new(settings()), tunnel_ready(vec![]), quitting()] {
        let before = format!("{:?}", controller.status());
        let outcome = controller.handle_service_ipc_msg(ServerMsg::TerminatingGracefully);
        assert_eq!(outcome.end, End::Fail(Fault::ServiceTerminated));
        assert_eq!(outcome.actions.len(), 2);
        assert_eq!(
            format!("{:?}", outcome.actions[0]),
            "SetTrayIcon(Icon { base: SignedOut, update_ready: false })"
        );
        match &outcome.actions[1] {
            Action::ShowNotification { title, body } => {
                assert_eq!(title, "Firezone disconnected");
                assert_eq!(
                    body,
                    "The Firezone Tunnel service was shutdown, quitting GUI process."
                );
            }
            other => panic!("{:?}", other),
        }
        assert_eq!(format!("{:?}", controller.status()), before);
    }
}

#[test]
fn on_disconnect_signs_out_and_tells_the_user() {
    let mut controller = tunnel_ready(vec![]);
    let outcome = controller.handle_service_ipc_msg(ServerMsg::OnDisconnect {
        error_msg: "token expired".to_owned(),
        is_authentication_error: true,
    });
    assert_eq!(outcome.end, End::Continue);
    assert_eq!(outcome.actions.len(), 5);
    assert!(matches!(outcome.actions[2], Action::Send(ClientMsg::Disconnect)));
    match &outcome.actions[4] {
        Action::ShowNotification { title, body } => {
            assert_eq!(title, "Firezone disconnected");
            assert_eq!(body, "To access resources, sign in again.");
        }
        other => panic!("{:?}", other),
    }
    assert!(matches!(controller.status(), Status::Disconnected));

    let mut controller = tunnel_ready(vec![]);
    let outcome = controller.handle_service_ipc_msg(ServerMsg::OnDisconnect {
        error_msg: "portal unreachable".to_owned(),
        is_authentication_error: false,
    });
    assert_eq!(outcome.actions.len(), 5);
    match &outcome.actions[4] {
        Action::ShowErrorDialog { title, text } => {
            assert_eq!(title, "Firezone Error");
            assert_eq!(text, "portal unreachable");
        }
        other => panic!("{:?}", other),
    }
    assert!(matches!(controller.status(), Status::Disconnected));
}

#[test]
fn on_disconnect_while_quitting_only_tells_the_user() {
    let mut controller = quitting();
    let outcome = controller.handle_service_ipc_msg(ServerMsg::OnDisconnect {
        error_msg: "bye".to_owned(),
        is_authentication_error: true,
    });
    assert_eq!(outcome.actions.len(), 1);
    assert!(matches!(outcome.actions[0], Action::ShowNotification { .. }));
    assert!(matches!(controller.status(), Status::Quitting));
}

#[test]
fn closed_sources_end_the_loop() {
    let now = Instant::now();
    let mut controller = Controller::new(settings());
    assert_eq!(
        controller.handle_tick(EventloopTick::IpcMsg(None), now).end,
        End::Fail(Fault::IpcClosed)
    );
    assert_eq!(
        controller.handle_tick(EventloopTick::IpcMsg(Some(Err("eof".to_owned()))), now).end,
        End::Fail(Fault::IpcRead("eof".to_owned()))
    );
    assert_eq!(
        controller.handle_tick(EventloopTick::UpdateNotification(None), now).end,
        End::Fail(Fault::UpdateCheckerStopped)
    );
    assert_eq!(
        controller.handle_tick(EventloopTick::NewInstanceLaunched(None), now).end,
        End::Fail(Fault::GuiIpcClosed)
    );
    assert_eq!(
        controller.handle_tick(EventloopTick::NetworkChanged(Err("netlink".to_owned())), now).end,
        End::Fail(Fault::Notifier("netlink".to_owned()))
    );
    assert_eq!(
        controller.handle_tick(EventloopTick::DnsChanged(Err("resolv".to_owned())), now).end,
        End::Fail(Fault::Notifier("resolv".to_owned()))
    );
    let outcome = controller.handle_tick(EventloopTick::ControllerRequest(None), now);
    assert!(outcome.actions.is_empty());
    assert_eq!(outcome.end, End::Fail(Fault::RequestsClosed));
    assert!(matches!(controller.status(), Status::Disconnected));
}

#[test]
fn the_loop_ends_well_on_the_confirmed_disconnect_while_quitting_only() {
    let now = Instant::now();
    let ticks = || {
        vec![
            EventloopTick::NetworkChanged(Ok(())),
            EventloopTick::NetworkChanged(Err("x".to_owned())),
            EventloopTick::DnsChanged(Ok(vec![])),
            EventloopTick::DnsChanged(Err("x".to_owned())),
            EventloopTick::IpcMsg(None),
            EventloopTick::IpcMsg(Some(Err("x".to_owned()))),
            EventloopTick::IpcMsg(Some(Ok(ServerMsg::Hello))),
            EventloopTick::IpcMsg(Some(Ok(ServerMsg::TunnelReady))),
            EventloopTick::IpcMsg(Some(Ok(ServerMsg::TerminatingGracefully))),
            EventloopTick::IpcMsg(Some(Ok(ServerMsg::ClearedLogs(Ok(()))))),
            EventloopTick::ControllerRequest(None),
            EventloopTick::ControllerRequest(Some(ControllerRequest::SignOut)),
            EventloopTick::UpdateNotification(None),
            EventloopTick::UpdateNotification(Some(None)),
            EventloopTick::NewInstanceLaunched(None),
            EventloopTick::NewInstanceLaunched(Some(Ok(()))),
        ]
    };
    for make in [
        (|| Controller::new(settings())) as fn() -> Controller,
        quitting,
        || retrying("T"),
        || tunnel_ready(vec![]),
    ] {
        for tick in ticks() {
            let outcome = make().handle_tick(tick, now);
            assert_ne!(outcome.end, End::Break, "{:?}", outcome);
        }
    }
    for make in [
        (|| Controller::new(settings())) as fn() -> Controller,
        || retrying("T"),
        || tunnel_ready(vec![]),
        || waiting_for_portal("T", Instant::now()),
    ] {
        let outcome = make().handle_tick(
            EventloopTick::IpcMsg(Some(Ok(ServerMsg::DisconnectedGracefully))),
            now,
        );
        assert_eq!(outcome.end, End::Continue);
    }
    let outcome = quitting()
        .handle_tick(EventloopTick::IpcMsg(Some(Ok(ServerMsg::DisconnectedGracefully))), now);
    assert_eq!(outcome.end, End::Break);
}

#[test]
fn new_instances_are_served_and_failed_accepts_passed_over() {
    let now = Instant::now();
    let mut controller = Controller::new(settings());
    let outcome = controller.handle_tick(EventloopTick::NewInstanceLaunched(Some(Ok(()))), now);
    assert_eq!(shapes(&outcome), vec!["ServeNewInstance"]);
    assert_eq!(outcome.end, End::Continue);
    let outcome = controller
        .handle_tick(EventloopTick::NewInstanceLaunched(Some(Err("accept".to_owned()))), now);
    assert!(outcome.actions.is_empty());
    assert_eq!(outcome.end, End::Continue);
}

#[test]
fn main_loop_is_entered_with_and_without_a_stored_token() {
    let now = Instant::now();
    let mut controller = Controller::new(settings());
    let outcome = controller.enter_main_loop(None, None, "1.2.3".to_owned(), now);
    assert_eq!(outcome.end, End::Continue);
    assert_eq!(outcome.actions.len(), 2);
    match &outcome.actions[0] {
        Action::Send(ClientMsg::StartTelemetry { environment, release, account_slug }) => {
            assert_eq!(environment, "wss://api.example.test/");
            assert_eq!(release, "1.2.3");
            assert_eq!(account_slug, &None);
        }
        other => panic!("{:?}", other),
    }
    assert!(matches!(outcome.actions[1], Action::RefreshTrayMenu));
    assert!(matches!(controller.status(), Status::Disconnected));

    let mut controller = Controller::new(settings());
    let outcome =
        controller.enter_main_loop(Some(token("T")), Some("acme".to_owned()), "1.2.3".to_owned(), now);
    assert_eq!(outcome.end, End::Continue);
    assert_eq!(outcome.actions.len(), 5);
    match &outcome.actions[0] {
        Action::SetTelemetryAccount(slug) => assert_eq!(slug, "acme"),
        other => panic!("{:?}", other),
    }
    match &outcome.actions[1] {
        Action::Send(ClientMsg::StartTelemetry { account_slug, .. }) => {
            assert_eq!(account_slug, &Some("acme".to_owned()))
        }
        other => panic!("{:?}", other),
    }
    assert!(matches!(outcome.actions[2], Action::Send(ClientMsg::Connect { .. })));
    assert!(matches!(outcome.actions[3], Action::NotifySignedIn));
    assert!(matches!(outcome.actions[4], Action::RefreshTrayMenu));
    assert!(matches!(controller.status(), Status::WaitingForPortal { .. }));
}

#[test]
fn welcome_window_on_the_first_run_only() {
    let outcome = Controller::welcome(false);
    assert_eq!(shapes(&outcome), vec!["SetWelcomeWindowVisible(true)"]);
    assert_eq!(outcome.end, End::Continue);
    let outcome = Controller::welcome(true);
    assert!(outcome.actions.is_empty());
    assert_eq!(outcome.end, End::Continue);
}

#[test]
fn deep_link_starts_a_session_once_connect_is_sent() {
    let now = Instant::now();
    let mut controller = Controller::new(settings());

    let outcome =
        controller.handle_deep_link(&token("T"), Some("acme".to_owned()), "1.2.3".to_owned());
    assert_eq!(outcome.end, End::Continue);
    assert_eq!(outcome.actions.len(), 3);
    assert!(matches!(&outcome.actions[0], Action::SetTelemetryAccount(slug) if slug == "acme"));
    assert!(matches!(outcome.actions[1], Action::Send(ClientMsg::StartTelemetry { .. })));
    match &outcome.actions[2] {
        Action::Send(ClientMsg::Connect { api_url, token }) => {
            assert_eq!(api_url, "wss://api.example.test/");
            assert_eq!(token.expose_secret(), "T");
        }
        other => panic!("{:?}", other),
    }
    assert!(matches!(controller.status(), Status::Disconnected));

    let outcome = controller.connect_sent(token("T"), now);
    assert_eq!(outcome.end, End::Continue);
    assert_eq!(shapes(&outcome), vec!["NotifySignedIn", "RefreshTrayMenu"]);
    match controller.status() {
        Status::WaitingForPortal { start_instant, token } => {
            assert_eq!(*start_instant, now);
            assert_eq!(token.expose_secret(), "T");
        }
        other => panic!("{:?}", other),
    }
}

#[test]
fn deep_link_is_refused_while_a_session_is_up_or_coming_up() {
    let mut controller = waiting_for_portal("T", Instant::now());
    let outcome = controller.handle_deep_link(&token("U"), None, "1.2.3".to_owned());
    assert_eq!(outcome.end, End::Fail(Fault::AlreadyConnecting));
    assert_eq!(outcome.actions.len(), 1);
    assert!(matches!(outcome.actions[0], Action::Send(ClientMsg::StartTelemetry { .. })));

    let outcome = controller.connect_sent(token("U"), Instant::now());
    assert_eq!(outcome.end, End::Fail(Fault::AlreadyConnecting));
    assert!(outcome.actions.is_empty());
    match controller.status() {
        Status::WaitingForPortal { token, .. } => assert_eq!(token.expose_secret(), "T"),
        other => panic!("{:?}", other),
    }

    let mut up = tunnel_ready(vec![]);
    let outcome = up.handle_deep_link(&token("U"), None, "1.2.3".to_owned());
    assert_eq!(outcome.end, End::Fail(Fault::AlreadyConnected));
    assert!(!sends_connect(&outcome));
    assert_eq!(up.connect_sent(token("U"), Instant::now()).end, End::Fail(Fault::AlreadyConnected));
    assert!(matches!(up.status(), Status::TunnelReady { .. }));
}

#[test]
fn deep_link_in_two_steps_is_a_session_start() {
    let now = Instant::now();
    let mut stepwise = retrying("old");
    let first = stepwise.handle_deep_link(&token("T"), None, "1.2.3".to_owned());
    let second = stepwise.connect_sent(token("T"), now);

    let mut whole = retrying("old");
    let telemetry = whole.update_telemetry_context(None, "1.2.3".to_owned());
    let session = whole.start_session(token("T"), now);

    let mut stepwise_actions = shapes(&first);
    stepwise_actions.extend(shapes(&second));
    let mut whole_actions: Vec<String> =
        telemetry.iter().map(|action| format!("{:?}", action)).collect();
    whole_actions.extend(shapes(&session));
    assert_eq!(stepwise_actions, whole_actions);
    assert_eq!(second.end, session.end);
    assert_eq!(format!("{:?}", stepwise.status()), format!("{:?}", whole.status()));
}

#[test]
fn status_predicates() {
    let cases: Vec<(Controller, bool, bool)> = vec![
        (Controller::new(settings()), false, false),
        (retrying("T"), false, false),
        (quitting(), false, false),
        (waiting_for_portal("T", Instant::now()), true, false),
        (waiting_for_tunnel(Instant::now()), true, true),
        (tunnel_ready(vec![]), true, true),
    ];
    for (controller, network, resources) in cases {
        assert_eq!(controller.status().needs_network_changes(), network);
        assert_eq!(controller.status().needs_resource_updates(), resources);
    }
}

#[test]
fn status_debug_never_shows_the_token() {
    let portal = waiting_for_portal("hunter2-token", Instant::now());
    assert!(!format!("{:?}", portal.status()).contains("hunter2"));
    assert!(!format!("{:?}", portal).contains("hunter2"));
    let retry = retrying("hunter2-token");
    assert!(!format!("{:?}", retry.status()).contains("hunter2"));

    let mut controller = Controller::new(settings());
    let outcome = controller.start_session(token("hunter2-token"), Instant::now());
    assert!(!format!("{:?}", outcome).contains("hunter2"));
}

fn active_variants(status: &Status) -> usize {
    [
        matches!(status, Status::Disconnected),
        matches!(status, Status::RetryingConnection { .. }),
        matches!(status, Status::Quitting),
        matches!(status, Status::TunnelReady { .. }),
        matches!(status, Status::WaitingForPortal { .. }),
        matches!(status, Status::WaitingForTunnel { .. }),
    ]
    .iter()
    .filter(|active| **active)
    .count()
}

#[test]
fn the_status_is_one_variant_after_every_tick() {
    let now = Instant::now();
    let mut controller = Controller::new(settings());
    assert_eq!(active_variants(controller.status()), 1);
    controller.start_session(token("T"), now);
    assert_eq!(active_variants(controller.status()), 1);
    let ticks = vec![
        EventloopTick::IpcMsg(Some(Ok(ServerMsg::ConnectResult(Err(ConnectError::Io(
            "no route".to_owned(),
        )))))),
        EventloopTick::NetworkChanged(Ok(())),
        EventloopTick::IpcMsg(Some(Ok(ServerMsg::ConnectResult(Ok(()))))),
        EventloopTick::DnsChanged(Ok(vec![IpAddress::V4(1)])),
        EventloopTick::IpcMsg(Some(Ok(ServerMsg::TunnelReady))),
        EventloopTick::IpcMsg(Some(Ok(ServerMsg::OnUpdateResources(vec![resource(
            1,
            ResourceKind::Internet,
            "internet",
        )])))),
        EventloopTick::UpdateNotification(Some(None)),
        EventloopTick::ControllerRequest(Some(ControllerRequest::SignOut)),
        EventloopTick::ControllerRequest(Some(ControllerRequest::SystemTrayMenu(Event::Quit))),
        EventloopTick::IpcMsg(Some(Ok(ServerMsg::DisconnectedGracefully))),
        EventloopTick::IpcMsg(None),
    ];
    let expected = [
        "RetryingConnection",
        "WaitingForPortal",
        "WaitingForTunnel",
        "WaitingForTunnel",
        "TunnelReady",
        "TunnelReady",
        "TunnelReady",
        "Disconnected",
        "Quitting",
        "Quitting",
        "Quitting",
    ];
    for (tick, name) in ticks.into_iter().zip(expected) {
        controller.handle_tick(tick, now);
        assert_eq!(active_variants(controller.status()), 1);
        assert!(format!("{:?}", controller.status()).starts_with(name), "{name}");
    }
}
