use healthcheck::outcome::{classify, ProbeOutcome, StatusClass};
use healthcheck::prober::{conclude, wants_body};
use healthcheck::reply::Reply;

fn expected_class(status: u16) -> StatusClass {
    if (200..=299).contains(&status) {
        StatusClass::Healthy
    } else if (500..=599).contains(&status) {
        StatusClass::ServerFailure
    } else {
        StatusClass::Unclassified
    }
}

#[test]
fn every_status_code_falls_into_its_range() {
    for status in 0..=u16::MAX {
        assert_eq!(classify(status), expected_class(status), "status {status}");
    }
}

#[test]
fn success_range_has_sharp_edges() {
    assert_eq!(classify(199), StatusClass::Unclassified);
    assert_eq!(classify(200), StatusClass::Healthy);
    assert_eq!(classify(204), StatusClass::Healthy);
    assert_eq!(classify(299), StatusClass::Healthy);
    assert_eq!(classify(300), StatusClass::Unclassified);
}

#[test]
fn server_error_range_has_sharp_edges() {
    assert_eq!(classify(499), StatusClass::Unclassified);
    assert_eq!(classify(500), StatusClass::ServerFailure);
    assert_eq!(classify(503), StatusClass::ServerFailure);
    assert_eq!(classify(599), StatusClass::ServerFailure);
    assert_eq!(classify(600), StatusClass::Unclassified);
}

#[test]
fn redirects_and_client_errors_are_unclassified() {
    for status in [0u16, 100, 101, 301, 302, 400, 401, 403, 404, 418, 999, 1000, u16::MAX] {
        assert_eq!(classify(status), StatusClass::Unclassified, "status {status}");
    }
}

#[test]
fn body_is_wanted_for_server_errors_only() {
    for status in 0..=u16::MAX {
        assert_eq!(wants_body(status), (500..=599).contains(&status), "status {status}");
    }
}

#[test]
fn success_reply_is_healthy_and_drops_the_body() {
    let reply = Reply::Response { status: 200, body: Some("all good".to_string()) };
    assert_eq!(conclude(reply), ProbeOutcome::Healthy);
    assert_eq!(conclude(Reply::Response { status: 204, body: None }), ProbeOutcome::Healthy);
}

#[test]
fn server_error_reply_keeps_status_and_whole_body() {
    let body = "db unreachable\n  line two \u{1F525} \"quoted\" & more=1".to_string();
    let reply = Reply::Response { status: 503, body: Some(body.clone()) };
    assert_eq!(conclude(reply), ProbeOutcome::ServerFailure { status: 503, body });
}

#[test]
fn unreadable_body_is_captured_as_empty_text() {
    let reply = Reply::Response { status: 500, body: None };
    assert_eq!(
        conclude(reply),
        ProbeOutcome::ServerFailure { status: 500, body: String::new() }
    );
}

#[test]
fn empty_body_stays_empty() {
    let reply = Reply::Response { status: 502, body: Some(String::new()) };
    assert_eq!(
        conclude(reply),
        ProbeOutcome::ServerFailure { status: 502, body: String::new() }
    );
}

#[test]
fn other_statuses_are_unclassified_with_their_status() {
    let reply = Reply::Response { status: 404, body: Some("not here".to_string()) };
    assert_eq!(conclude(reply), ProbeOutcome::Unclassified { status: 404 });
    let reply = Reply::Response { status: 302, body: None };
    assert_eq!(conclude(reply), ProbeOutcome::Unclassified { status: 302 });
}

#[test]
fn missing_response_is_a_transport_failure_with_its_cause() {
    let reply = Reply::NoResponse { cause: "connection refused".to_string() };
    assert_eq!(
        conclude(reply),
        ProbeOutcome::TransportFailure { cause: "connection refused".to_string() }
    );
}

#[test]
fn only_server_failures_are_alertable() {
    assert!(!ProbeOutcome::Healthy.is_alertable());
    assert!(!ProbeOutcome::Unclassified { status: 404 }.is_alertable());
    assert!(!ProbeOutcome::TransportFailure { cause: "timeout".to_string() }.is_alertable());
    assert!(ProbeOutcome::ServerFailure { status: 503, body: String::new() }.is_alertable());
}

#[test]
fn classes_agree_with_the_status_predicates_of_the_http_client() {
    for code in 100..=999u16 {
        let status = reqwest::StatusCode::from_u16(code).expect("a status code");
        let expected = if status.is_success() {
            StatusClass::Healthy
        } else if status.is_server_error() {
            StatusClass::ServerFailure
        } else {
            StatusClass::Unclassified
        };
        assert_eq!(classify(code), expected, "status {code}");
    }
}
