use resend_mcp::config::{RawConfig, validate};
use resend_mcp::dispatch::{
    Dispatcher, ExitStatus, LocalEvent, NetworkAction, NetworkEvent, ServeState, StartAction,
};
use resend_mcp::health::{
    HealthOutcome, body_excerpt, classify_health_response, health_check_url, health_request,
    probe_warns, should_run_health_check, EXCERPT_LIMIT,
};

fn settings(transport: &str, no_health_check: bool) -> resend_mcp::config::Settings {
    validate(RawConfig {
        api_key: "k".to_string(),
        base_url: "https://api.resend.com".to_string(),
        bind_address: "127.0.0.1".to_string(),
        port: "8080".to_string(),
        transport: transport.to_string(),
        no_health_check,
    })
    .unwrap()
}

#[test]
fn health_url_is_the_domains_endpoint() {
    assert_eq!(health_check_url("https://api.resend.com"), "https://api.resend.com/domains");
    assert_eq!(health_check_url("https://api.resend.com/"), "https://api.resend.com/domains");
    assert_eq!(health_check_url("https://x.io///"), "https://x.io/domains");
    assert_eq!(health_check_url(""), "/domains");
}

#[test]
fn the_probe_request_carries_both_headers() {
    let req = health_request(&settings("stdio", false));
    assert_eq!(req.url, "https://api.resend.com/domains");
    assert_eq!(req.authorization, "Bearer k");
    assert_eq!(req.content_type, "application/json");
}

#[test]
fn body_excerpt_is_bounded() {
    let long = "x".repeat(500);
    assert_eq!(body_excerpt(&long).len(), EXCERPT_LIMIT);
    assert_eq!(body_excerpt("short"), "short");
}

#[test]
fn statuses_classify_by_the_2xx_range() {
    assert!(matches!(classify_health_response(200, ""), HealthOutcome::Passed));
    assert!(matches!(classify_health_response(299, ""), HealthOutcome::Passed));
    match classify_health_response(300, "moved") {
        HealthOutcome::Failed { status, body_excerpt } => {
            assert_eq!(status, 300);
            assert_eq!(body_excerpt, "moved");
        }
        _ => panic!("a non-2xx status must classify as failed"),
    }
    match classify_health_response(401, &"e".repeat(300)) {
        HealthOutcome::Failed { status, body_excerpt } => {
            assert_eq!(status, 401);
            assert_eq!(body_excerpt.len(), 200);
        }
        _ => panic!("a non-2xx status must classify as failed"),
    }
}

#[test]
fn every_non_pass_outcome_warns_and_none_is_fatal() {
    assert!(!probe_warns(&HealthOutcome::Passed));
    assert!(probe_warns(&HealthOutcome::Unreachable { message: "timeout".to_string() }));
    assert!(probe_warns(&HealthOutcome::Failed { status: 500, body_excerpt: String::new() }));
}

#[test]
fn disabling_the_health_check_skips_the_probe() {
    assert!(should_run_health_check(&settings("stdio", false)));
    assert!(!should_run_health_check(&settings("stdio", true)));
}

#[test]
fn probe_failure_never_prevents_serving() {
    let s = settings("http", false);
    let outcomes = vec![
        None,
        Some(HealthOutcome::Passed),
        Some(HealthOutcome::Unreachable { message: "no route".to_string() }),
        Some(HealthOutcome::Failed { status: 503, body_excerpt: "down".to_string() }),
    ];
    for probe in &outcomes {
        let mut d = Dispatcher::new();
        let action = d.start(&s, probe);
        assert_eq!(action, StartAction::BindListener);
        assert_eq!(d.state, ServeState::ServingNetwork);
    }
}

#[test]
fn local_stream_closure_exits_cleanly() {
    let s = settings("stdio", true);
    let mut d = Dispatcher::new();
    assert_eq!(d.start(&s, &None), StartAction::OpenLocalSession);
    assert_eq!(d.state, ServeState::ServingLocal);
    d.on_local_event(LocalEvent::StreamClosed);
    assert_eq!(d.state, ServeState::Terminated);
    assert_eq!(d.exit_code(), 0);
}

#[test]
fn local_session_error_exits_nonzero() {
    let s = settings("stdio", true);
    let mut d = Dispatcher::new();
    d.start(&s, &None);
    d.on_local_event(LocalEvent::SessionError);
    assert_eq!(d.exit_code(), 1);
}

#[test]
fn interrupt_while_idle_stops_the_accept_loop_cleanly() {
    let s = settings("http", true);
    let mut d = Dispatcher::new();
    d.start(&s, &None);
    let action = d.on_network_event(NetworkEvent::Interrupt);
    assert_eq!(action, NetworkAction::StopAccepting);
    assert_eq!(d.state, ServeState::Terminated);
    assert_eq!(d.exit, Some(ExitStatus::Success));
    assert_eq!(d.exit_code(), 0);
}

#[test]
fn interrupt_with_an_active_connection_still_stops_accepts() {
    let s = settings("http", true);
    let mut d = Dispatcher::new();
    d.start(&s, &None);
    assert_eq!(d.on_network_event(NetworkEvent::ConnectionAccepted), NetworkAction::SpawnHandler);
    assert_eq!(d.state, ServeState::ServingNetwork);
    let action = d.on_network_event(NetworkEvent::Interrupt);
    assert_eq!(action, NetworkAction::StopAccepting);
    assert_eq!(d.exit_code(), 0);
}

#[test]
fn connection_failures_are_isolated() {
    let s = settings("http", true);
    let mut d = Dispatcher::new();
    d.start(&s, &None);
    assert_eq!(d.on_network_event(NetworkEvent::ConnectionFailed), NetworkAction::KeepAccepting);
    assert_eq!(d.state, ServeState::ServingNetwork);
    assert_eq!(d.on_network_event(NetworkEvent::ConnectionAccepted), NetworkAction::SpawnHandler);
    assert_eq!(d.state, ServeState::ServingNetwork);
}

#[test]
fn bind_and_accept_faults_are_fatal() {
    let s = settings("http", true);
    let mut d = Dispatcher::new();
    d.start(&s, &None);
    assert_eq!(d.on_network_event(NetworkEvent::BindFailed), NetworkAction::AbortServing);
    assert_eq!(d.exit_code(), 1);

    let mut d2 = Dispatcher::new();
    d2.start(&s, &None);
    assert_eq!(d2.on_network_event(NetworkEvent::AcceptFailed), NetworkAction::AbortServing);
    assert_eq!(d2.exit_code(), 1);
}

#[test]
fn transport_kind_decides_locality() {
    assert!(resend_mcp::Transport::Stdio.is_local());
    assert!(!resend_mcp::Transport::Http.is_local());
}
