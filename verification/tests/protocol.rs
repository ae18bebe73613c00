//! The reachability verification protocol: the self-test's token
//! exactness and the client probe's classification, plus the connect
//! state machine built on them.

use nasomail::connection::classify_probe;
use nasomail::connection::get_connection;
use nasomail::connection::remove_connection;
use nasomail::connection::ConnectionTestResult;
use nasomail::ctest::connection_test;
use nasomail::ctest::ctest_url;
use nasomail::ctest::HttpExchange;
use nasomail::ctest::SelfTestVerdict;
use nasomail::registration::connect_begin;
use nasomail::registration::connect_exit_code;
use nasomail::registration::connect_finish;
use nasomail::registration::ConnectOutcome;
use nasomail::store::RecordSlot;

fn replied(status: u16, body: &str) -> HttpExchange {
    HttpExchange::Replied {
        status,
        body: body.to_string(),
    }
}

#[test]
fn ctest_url_targets_the_token_route() {
    assert_eq!(ctest_url("good-host:8080"), "http://good-host:8080/ctest");
}

#[test]
fn self_test_passes_on_exact_token() {
    let verdict = connection_test(&replied(200, "tok-1234"), "tok-1234");
    assert!(matches!(verdict, SelfTestVerdict::Passed));
}

#[test]
fn self_test_trims_both_sides_before_comparing() {
    let verdict = connection_test(&replied(200, " tok-1234\n"), "tok-1234 ");
    assert!(matches!(verdict, SelfTestVerdict::Passed));
}

#[test]
fn self_test_fails_on_any_character_difference() {
    let verdict = connection_test(&replied(200, "tok-1235"), "tok-1234");
    assert!(matches!(verdict, SelfTestVerdict::TokenMismatch(got) if got == "tok-1235"));
}

#[test]
fn self_test_fails_on_wrong_status() {
    let verdict = connection_test(&replied(404, "tok-1234"), "tok-1234");
    assert!(matches!(verdict, SelfTestVerdict::WrongStatus(404)));
}

#[test]
fn self_test_reports_transport_failure_as_unreachable() {
    // The public address is not routable: the self-test only reports it;
    // serving is never gated on the verdict.
    let exchange = HttpExchange::Failed("connect timed out".to_string());
    let verdict = connection_test(&exchange, "tok-1234");
    assert!(matches!(verdict, SelfTestVerdict::Unreachable(d) if d == "connect timed out"));
}

#[test]
fn probe_succeeds_on_200_with_any_nonempty_body() {
    // The prober does not know the server's token.
    assert_eq!(
        classify_probe(&replied(200, "whatever")),
        ConnectionTestResult::Success
    );
}

#[test]
fn probe_classifies_transport_failure_as_unreachable() {
    let exchange = HttpExchange::Failed("dns".to_string());
    assert_eq!(classify_probe(&exchange), ConnectionTestResult::Unreachable);
}

#[test]
fn probe_classifies_other_statuses() {
    assert_eq!(
        classify_probe(&replied(404, "nope")),
        ConnectionTestResult::UnexpectedStatus(404)
    );
    assert_eq!(
        classify_probe(&replied(200, "")),
        ConnectionTestResult::EmptyBody
    );
}

#[test]
fn connect_keeps_the_record_on_success() {
    let mut slot = RecordSlot::new(true, None);
    let target = connect_begin(&mut slot, "good-host:8080");
    let probe = classify_probe(&replied(200, "tok-1234"));
    let outcome = connect_finish(&mut slot, target, probe);
    assert!(matches!(outcome, ConnectOutcome::Connected(ref a) if a == "good-host:8080"));
    assert_eq!(connect_exit_code(&outcome), 0);
    assert_eq!(get_connection(&slot).unwrap().unwrap(), "good-host:8080");
}

#[test]
fn connect_rolls_back_when_unreachable() {
    let mut slot = RecordSlot::new(true, None);
    let target = connect_begin(&mut slot, "bad-host:9999");
    let probe = classify_probe(&HttpExchange::Failed("timed out".to_string()));
    let outcome = connect_finish(&mut slot, target, probe);
    assert!(matches!(
        outcome,
        ConnectOutcome::Failed(ConnectionTestResult::Unreachable)
    ));
    assert_eq!(connect_exit_code(&outcome), 1);
    assert!(get_connection(&slot).unwrap().is_none());
}

#[test]
fn connect_rolls_back_on_unexpected_status() {
    let mut slot = RecordSlot::new(true, None);
    let target = connect_begin(&mut slot, "weird-host:1234");
    let probe = classify_probe(&replied(404, "not here"));
    let outcome = connect_finish(&mut slot, target, probe);
    assert!(matches!(
        outcome,
        ConnectOutcome::Failed(ConnectionTestResult::UnexpectedStatus(404))
    ));
    assert_eq!(connect_exit_code(&outcome), 1);
    assert!(get_connection(&slot).unwrap().is_none());
}

#[test]
fn connect_persists_before_the_probe_runs() {
    // Write-then-verify: between the two halves the address is on record,
    // so a crash mid-probe leaves it available for inspection.
    let mut slot = RecordSlot::new(true, None);
    let target = connect_begin(&mut slot, " host:7 ");
    assert_eq!(target, "host:7");
    assert_eq!(get_connection(&slot).unwrap().unwrap(), "host:7");
}

#[test]
fn disconnect_with_nothing_saved_reports_nothing_removed() {
    let mut slot = RecordSlot::new(true, None);
    assert!(get_connection(&slot).unwrap().is_none());
    assert!(!remove_connection(&mut slot));
}
