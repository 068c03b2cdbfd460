use coc_client::refresh::{ListEvent, LoginEvent, RefreshError, RefreshFlow, RefreshPhase};

#[test]
fn starts_by_listing_with_live_session() {
    let f = RefreshFlow::start(true);
    assert!(matches!(f.phase, RefreshPhase::Listing));
}

#[test]
fn starts_by_logging_in_without_session() {
    let f = RefreshFlow::start(false);
    assert!(matches!(f.phase, RefreshPhase::LoggingIn));
}

#[test]
fn successful_run_without_session() {
    let mut f = RefreshFlow::start(false);
    f.on_login(LoginEvent::Succeeded);
    assert!(matches!(f.phase, RefreshPhase::Listing));
    f.on_list(ListEvent::Listed);
    assert!(matches!(f.phase, RefreshPhase::Done(Ok(()))));
}

#[test]
fn rejected_credential_is_not_retried() {
    let mut f = RefreshFlow::start(false);
    f.on_login(LoginEvent::Rejected);
    assert!(matches!(f.phase, RefreshPhase::Done(Err(RefreshError::Auth))));
}

#[test]
fn rejected_session_earns_exactly_one_relogin() {
    let mut f = RefreshFlow::start(true);
    f.on_list(ListEvent::SessionRejected);
    assert!(matches!(f.phase, RefreshPhase::LoggingIn));
    assert!(f.relogin_used);
    f.on_login(LoginEvent::Succeeded);
    assert!(matches!(f.phase, RefreshPhase::Listing));
    f.on_list(ListEvent::SessionRejected);
    assert!(matches!(f.phase, RefreshPhase::Done(Err(RefreshError::SessionExpired))));
}

#[test]
fn transport_failures_propagate() {
    let mut f = RefreshFlow::start(false);
    f.on_login(LoginEvent::Unreachable);
    assert!(matches!(f.phase, RefreshPhase::Done(Err(RefreshError::Transport))));

    let mut g = RefreshFlow::start(true);
    g.on_list(ListEvent::Unreachable);
    assert!(matches!(g.phase, RefreshPhase::Done(Err(RefreshError::Transport))));
}

#[test]
fn garbled_payloads_are_deserialization_errors() {
    let mut f = RefreshFlow::start(false);
    f.on_login(LoginEvent::Garbled);
    assert!(matches!(f.phase, RefreshPhase::Done(Err(RefreshError::Deserialization))));

    let mut g = RefreshFlow::start(true);
    g.on_list(ListEvent::Garbled);
    assert!(matches!(g.phase, RefreshPhase::Done(Err(RefreshError::Deserialization))));
}
