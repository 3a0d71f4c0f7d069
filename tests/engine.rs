use visonic_mqtt::api::{uri, Body, Method, Request};
use visonic_mqtt::dispatch::{dispatch_command, log_unwrap, Action, Command, Dispatch, Event, Stage};
use visonic_mqtt::mqtt::{Message, MqttHandlerConfig};
use visonic_mqtt::retry::{BoundedRetry, RetryStep};
use visonic_mqtt::visonic::{
    any_succeeded, AuthedVisonic, ResPanelLogin, ResProcessStatus, ResProcessToken, RespLogin,
    RespVersion, Visonic, VisonicErr,
};

fn panel() -> Visonic {
    Visonic {
        hostname: "panel.example.com".to_string(),
        user_code: "1234".to_string(),
        app_id: "app-1".to_string(),
        partition: -1,
        user_email: "me@example.com".to_string(),
        user_password: "pw".to_string(),
        panel_id: "SER1".to_string(),
    }
}

fn versions(list: &[&str]) -> Event {
    Event::Versions(Ok(RespVersion { rest_versions: list.iter().map(|s| s.to_string()).collect() }))
}

fn user_token(t: &str) -> Event {
    Event::UserToken(Ok(RespLogin { user_token: t.to_string() }))
}

fn session_token(t: &str) -> Event {
    Event::SessionToken(Ok(ResPanelLogin { session_token: t.to_string() }))
}

fn process_token(t: &str) -> Event {
    Event::ProcessToken(Ok(ResProcessToken { process_token: t.to_string() }))
}

fn statuses(list: &[&str]) -> Event {
    Event::Statuses(Ok(list
        .iter()
        .map(|s| ResProcessStatus { token: "pt".to_string(), status: s.to_string(), error: None })
        .collect()))
}

fn http_err() -> VisonicErr {
    VisonicErr::HttpError(500, "boom".to_string())
}

fn sent(a: &Action) -> &Request {
    match a {
        Action::Send(r) => r,
        _ => panic!("expected a request"),
    }
}

fn published(a: &Action) -> &str {
    match a {
        Action::Publish(s) => s.as_str(),
        _ => panic!("expected a publication"),
    }
}

fn header<'a>(r: &'a Request, name: &str) -> Option<&'a str> {
    r.headers.iter().find(|(n, _)| n == name).map(|(_, v)| v.as_str())
}

/// Runs `text` through the machine up to the set-state request.
fn logged_in(text: &str) -> (Dispatch, Vec<Action>) {
    let mut actions = Vec::new();
    let (d, a) = dispatch_command(text, panel());
    actions.push(a);
    let (d, a) = d.step(versions(&["8.0", "10.0"]));
    actions.push(a);
    let (d, a) = d.step(user_token("UT"));
    actions.push(a);
    let (d, a) = d.step(session_token("ST"));
    actions.push(a);
    (d, actions)
}

#[test]
fn uri_builds_versioned_url() {
    assert_eq!(uri(&"h.example".to_string(), "/status"), "https://h.example/rest_api/10.0/status");
}

#[test]
fn command_parse_is_exact() {
    assert_eq!(Command::parse("AWAY"), Command::Away);
    assert_eq!(Command::parse("DISARM"), Command::Disarm);
    assert_eq!(Command::parse("NIGHT"), Command::Night);
    assert_eq!(Command::parse("STAY"), Command::Stay);
    assert_eq!(Command::parse("away"), Command::Unknown);
    assert_eq!(Command::parse(""), Command::Unknown);
    assert_eq!(Command::Night.name(), "NIGHT");
}

#[test]
fn log_unwrap_maps_outcomes() {
    assert_eq!(log_unwrap("AWAY".to_string(), Ok(())), Some("AWAY".to_string()));
    assert_eq!(
        log_unwrap("AWAY".to_string(), Err(VisonicErr::RetriesExhausted)),
        Some("ERROR".to_string())
    );
}

#[test]
fn check_ver_accepts_listed_version() {
    let reported = RespVersion { rest_versions: vec!["9.0".to_string(), "10.0".to_string()] };
    assert!(panel().check_ver(&reported).is_ok());
}

#[test]
fn check_ver_reports_full_list() {
    let reported = RespVersion {
        rest_versions: vec!["8.0".to_string(), "9.0".to_string(), "11.0".to_string()],
    };
    match panel().check_ver(&reported) {
        Err(VisonicErr::VersionNotSupported(list)) => {
            assert_eq!(list, "[\"8.0\", \"9.0\", \"11.0\"]")
        }
        _ => panic!("expected VersionNotSupported"),
    }
}

#[test]
fn check_ver_rejects_empty_list() {
    let reported = RespVersion { rest_versions: vec![] };
    match panel().check_ver(&reported) {
        Err(VisonicErr::VersionNotSupported(list)) => assert_eq!(list, "[]"),
        _ => panic!("expected VersionNotSupported"),
    }
}

#[test]
fn login_requests_carry_credentials_and_tokens() {
    let v = panel();
    let version = v.version();
    assert_eq!(version.url, "https://panel.example.com/rest_api/version");
    assert_eq!(version.method, Method::Get);
    let acc = v.account_login();
    assert_eq!(acc.url, "https://panel.example.com/rest_api/10.0/auth");
    assert!(acc.headers.is_empty());
    match &acc.body {
        Body::Login(b) => {
            assert_eq!(b.email, "me@example.com");
            assert_eq!(b.password, "pw");
            assert_eq!(b.app_id, "app-1");
        }
        _ => panic!("expected a login body"),
    }
    let pl = v.panel_login(&"UT".to_string());
    assert_eq!(pl.url, "https://panel.example.com/rest_api/10.0/panel/login");
    assert_eq!(header(&pl, "User-Token"), Some("UT"));
    assert_eq!(header(&pl, "Session-Token"), None);
    match &pl.body {
        Body::PanelLogin(b) => {
            assert_eq!(b.user_code, "1234");
            assert_eq!(b.app_type, "com.visonic.PowerMaxApp");
            assert_eq!(b.panel_serial, "SER1");
        }
        _ => panic!("expected a panel login body"),
    }
}

#[test]
fn session_requests_carry_both_tokens() {
    let s = AuthedVisonic {
        visonic: panel(),
        user_token: "UT".to_string(),
        session_token: "ST".to_string(),
    };
    let poll = s.process_status_once(&ResProcessToken { process_token: "tok-a".to_string() });
    assert_eq!(
        poll.url,
        "https://panel.example.com/rest_api/10.0/process_status?process_tokens=tok-a"
    );
    assert_eq!(header(&poll, "User-Token"), Some("UT"));
    assert_eq!(header(&poll, "Session-Token"), Some("ST"));
    let dev = s.devices();
    assert_eq!(dev.url, "https://panel.example.com/rest_api/10.0/devices");
    assert_eq!(dev.method, Method::Get);
    match &s.arm_night().body {
        Body::SetState(b) => {
            assert_eq!(b.partition, -1);
            assert_eq!(b.state, "NIGHT");
        }
        _ => panic!("expected a set-state body"),
    }
}

#[test]
fn any_succeeded_looks_at_every_record() {
    let recs = |l: &[&str]| -> Vec<ResProcessStatus> {
        l.iter()
            .map(|s| ResProcessStatus { token: "t".to_string(), status: s.to_string(), error: None })
            .collect()
    };
    assert!(!any_succeeded(&recs(&[])));
    assert!(!any_succeeded(&recs(&["pending", "failed"])));
    assert!(any_succeeded(&recs(&["pending", "succeeded"])));
}

#[test]
fn bounded_retry_decides_after_each_attempt() {
    let mut r = BoundedRetry::new(3);
    assert!(r.can_attempt());
    assert_eq!(r.record(false), RetryStep::Wait);
    assert_eq!(r.record(false), RetryStep::Wait);
    assert_eq!(r.record(false), RetryStep::Exhausted);
    assert!(!r.can_attempt());
    let mut r = BoundedRetry::new(3);
    assert_eq!(r.record(true), RetryStep::Accept);
}

#[test]
fn each_command_succeeds_on_first_confirmed_poll() {
    for (text, state) in [("AWAY", "AWAY"), ("DISARM", "DISARM"), ("NIGHT", "NIGHT"), ("STAY", "STAY")] {
        let (d, actions) = logged_in(text);
        match &sent(&actions[3]).body {
            Body::SetState(b) => assert_eq!(b.state, state),
            _ => panic!("expected a set-state request"),
        }
        let (d, a) = d.step(process_token("tok-a"));
        assert!(sent(&a).url.ends_with("?process_tokens=tok-a"));
        let (d, a) = d.step(statuses(&["succeeded"]));
        assert_eq!(published(&a), text);
        assert!(d.is_done());
    }
}

#[test]
fn failed_version_check_publishes_error() {
    let (d, _) = dispatch_command("AWAY", panel());
    let (d, a) = d.step(versions(&["9.0", "11.0"]));
    assert_eq!(published(&a), "ERROR");
    assert!(d.is_done());
    assert!(!d.expects(&process_token("tok-c")));
}

#[test]
fn transport_error_in_login_publishes_error() {
    let (d, _) = dispatch_command("DISARM", panel());
    let (d, a) = d.step(Event::Versions(Err(http_err())));
    assert_eq!(published(&a), "ERROR");
    assert!(d.is_done());

    let (d, _) = dispatch_command("DISARM", panel());
    let (d, _) = d.step(versions(&["10.0"]));
    let (d, a) = d.step(Event::UserToken(Err(http_err())));
    assert_eq!(published(&a), "ERROR");
    assert!(d.is_done());

    let (d, _) = dispatch_command("DISARM", panel());
    let (d, _) = d.step(versions(&["10.0"]));
    let (d, a) = d.step(user_token("UT"));
    assert_eq!(header(sent(&a), "User-Token"), Some("UT"));
    let (d, a) = d.step(Event::SessionToken(Err(http_err())));
    assert_eq!(published(&a), "ERROR");
    assert!(d.is_done());
}

#[test]
fn set_state_error_publishes_error() {
    let (d, _) = logged_in("STAY");
    let (d, a) = d.step(Event::ProcessToken(Err(http_err())));
    assert_eq!(published(&a), "ERROR");
    assert!(d.is_done());
}

#[test]
fn unconfirmed_change_polls_five_times() {
    let (d, _) = logged_in("AWAY");
    let (mut d, a) = d.step(process_token("tok-a"));
    let mut polls = 1;
    let mut sleeps = 0;
    assert!(matches!(a, Action::Send(_)));
    loop {
        let (next, a) = d.step(statuses(&["pending"]));
        d = next;
        match a {
            Action::Sleep(secs) => {
                assert_eq!(secs, 1);
                sleeps += 1;
                let (next, a) = d.step(Event::Elapsed);
                d = next;
                assert!(matches!(a, Action::Send(_)));
                polls += 1;
            }
            Action::Publish(s) => {
                assert_eq!(s, "ERROR");
                break;
            }
            _ => panic!("unexpected action"),
        }
    }
    assert_eq!(polls, 5);
    assert_eq!(sleeps, 4);
    assert!(d.is_done());
}

#[test]
fn poll_errors_are_retried() {
    let (d, _) = logged_in("NIGHT");
    let (d, _) = d.step(process_token("tok-a"));
    let (d, a) = d.step(Event::Statuses(Err(http_err())));
    assert!(matches!(a, Action::Sleep(1)));
    let (d, _) = d.step(Event::Elapsed);
    let (d, a) = d.step(statuses(&["pending", "succeeded"]));
    assert_eq!(published(&a), "NIGHT");
    assert!(d.is_done());
}

#[test]
fn confirmation_on_third_poll_stops_polling() {
    let (d, _) = logged_in("DISARM");
    let (mut d, _) = d.step(process_token("tok-a"));
    for _ in 0..2 {
        let (next, a) = d.step(statuses(&["pending"]));
        assert!(matches!(a, Action::Sleep(1)));
        let (next, _) = next.step(Event::Elapsed);
        d = next;
    }
    let (d, a) = d.step(statuses(&["succeeded"]));
    assert_eq!(published(&a), "DISARM");
    assert!(d.is_done());
    assert!(!d.expects(&Event::Elapsed));
    assert!(!d.expects(&statuses(&["succeeded"])));
}

#[test]
fn unknown_text_publishes_nothing() {
    let (d, a) = dispatch_command("OPEN_SESAME", panel());
    assert!(matches!(a, Action::Finish));
    assert!(d.is_done());
    assert!(!d.expects(&versions(&["10.0"])));
}

#[test]
fn consecutive_commands_log_in_separately() {
    for text in ["AWAY", "STAY"] {
        let (d, a) = dispatch_command(text, panel());
        assert!(sent(&a).url.ends_with("/rest_api/version"));
        assert!(matches!(d.stage, Stage::CheckingVersion { .. }));
        let (d, _) = d.step(versions(&["10.0"]));
        let (d, _) = d.step(user_token("SAME-UT"));
        let (d, a) = d.step(session_token("SAME-ST"));
        assert_eq!(header(sent(&a), "Session-Token"), Some("SAME-ST"));
        match &d.stage {
            Stage::SettingState { session } => {
                assert_eq!(session.user_token, "SAME-UT");
                assert_eq!(session.session_token, "SAME-ST");
            }
            _ => panic!("expected a session"),
        }
    }
}

#[test]
fn reply_goes_to_status_topic() {
    let cfg = MqttHandlerConfig {
        id: "id".to_string(),
        host: "broker".to_string(),
        port: 1883,
        username: "u".to_string(),
        password: "p".to_string(),
        command_topic: "alarm/cmd".to_string(),
        status_topic: "alarm/status".to_string(),
        info_topic: "alarm/info".to_string(),
        lwt_topic: "alarm/lwt".to_string(),
    };
    let m: Message = cfg.reply(Some("AWAY".to_string())).unwrap();
    assert_eq!(m.topic, "alarm/status");
    assert_eq!(m.payload, "AWAY");
    assert!(cfg.reply(None).is_none());
}

#[test]
fn error_text_names_variant_and_payload() {
    assert_eq!(http_err().to_string(), "VisonicErr::HttpError(500, boom)");
    assert_eq!(VisonicErr::HttpError(0, "x".to_string()).to_string(), "VisonicErr::HttpError(0, x)");
    assert_eq!(VisonicErr::RetriesExhausted.to_string(), "VisonicErr::RetriesExhausted");
    assert_eq!(
        VisonicErr::VersionNotSupported("[]".to_string()).to_string(),
        "VisonicErr::VersionNotSupported([])"
    );
}

#[test]
fn decimal_text_has_no_leading_zeros() {
    assert_eq!(visonic_mqtt::visonic::decimal_text(0), "0");
    assert_eq!(visonic_mqtt::visonic::decimal_text(404), "404");
    assert_eq!(visonic_mqtt::visonic::decimal_text(65535), "65535");
}

#[test]
fn message_text_joins_topic_and_payload() {
    let m = Message { topic: "alarm/cmd".to_string(), payload: "AWAY".to_string() };
    assert_eq!(m.to_string(), "alarm/cmd AWAY");
}

#[test]
fn fresh_dispatch_is_well_formed() {
    let (d, _) = dispatch_command("AWAY", panel());
    assert!(d.is_well_formed());
    assert!(d.expects(&versions(&[])));
    assert!(!d.expects(&Event::Elapsed));
}

#[test]
fn failure_keeps_its_cause() {
    let (d, _) = dispatch_command("AWAY", panel());
    let (d, _) = d.step(versions(&["9.0"]));
    match &d.stage {
        Stage::Done { cause: Some(VisonicErr::VersionNotSupported(list)) } => {
            assert_eq!(list, "[\"9.0\"]")
        }
        _ => panic!("expected a version failure"),
    }
    let (d, _) = dispatch_command("AWAY", panel());
    let (d, _) = d.step(versions(&["10.0"]));
    let (d, _) = d.step(Event::UserToken(Err(VisonicErr::HttpError(401, "denied".to_string()))));
    match &d.stage {
        Stage::Done { cause: Some(VisonicErr::HttpError(code, msg)) } => {
            assert_eq!(*code, 401);
            assert_eq!(msg, "denied");
        }
        _ => panic!("expected an HTTP failure"),
    }
}

#[test]
fn exhausted_polling_records_retries_exhausted() {
    let (d, _) = logged_in("STAY");
    let (mut d, _) = d.step(process_token("tok-b"));
    for _ in 0..4 {
        let (next, _) = d.step(statuses(&[]));
        let (next, _) = next.step(Event::Elapsed);
        d = next;
    }
    let (d, a) = d.step(statuses(&["failed"]));
    assert_eq!(published(&a), "ERROR");
    assert!(matches!(d.stage, Stage::Done { cause: Some(VisonicErr::RetriesExhausted) }));
}
