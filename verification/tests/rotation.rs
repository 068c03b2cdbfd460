use coc_client::dev::{Credential, Key};
use coc_client::refresh::RefreshError;
use coc_client::rotation::{
    DuplicateAccountError, EmptyPoolError, KeyRotationManager, NotFoundError,
};
use coc_client::validity::{parse_ipv4, timestamp_value};

fn key(secret: &str, cidrs: &[&str], valid_until: &str) -> Key {
    Key {
        id: String::from("id"),
        developer_id: String::from("dev"),
        tier: String::from("developer/silver"),
        name: String::from("k"),
        description: String::new(),
        origins: String::new(),
        scopes: vec![String::from("clash")],
        cidr_ranges: cidrs.iter().map(|s| String::from(*s)).collect(),
        valid_until: String::from(valid_until),
        key: String::from(secret),
    }
}

fn cred(email: &str) -> Credential {
    Credential::new(String::from(email), String::from("hunter2"))
}

const FUTURE: &str = "2099-01-01T00:00:00";

fn now() -> u64 {
    timestamp_value(2024, 6, 1, 0, 0, 0)
}

fn ip() -> u32 {
    parse_ipv4("10.1.2.3").unwrap()
}

/// A pool with two accounts holding [k1, k2] and [k3].
fn two_account_pool() -> KeyRotationManager {
    let mut m = KeyRotationManager::new();
    m.register(cred("a@example.com")).unwrap();
    m.register(cred("b@example.com")).unwrap();
    m.refresh_account(0, vec![key("k1", &[], FUTURE), key("k2", &[], FUTURE)], ip(), now());
    m.refresh_account(1, vec![key("k3", &[], FUTURE)], ip(), now());
    m
}

#[test]
fn round_robin_returns_each_key_once_then_wraps() {
    let mut m = two_account_pool();
    assert_eq!(m.acquire_token().unwrap(), "k1");
    assert_eq!(m.acquire_token().unwrap(), "k2");
    assert_eq!(m.acquire_token().unwrap(), "k3");
    assert_eq!(m.acquire_token().unwrap(), "k1");
    assert_eq!(m.acquire_token().unwrap(), "k2");
}

#[test]
fn round_robin_skips_accounts_without_keys() {
    let mut m = KeyRotationManager::new();
    m.register(cred("a@example.com")).unwrap();
    m.register(cred("empty@example.com")).unwrap();
    m.register(cred("c@example.com")).unwrap();
    m.refresh_account(0, vec![key("k1", &[], FUTURE)], ip(), now());
    m.refresh_account(2, vec![key("k2", &[], FUTURE)], ip(), now());
    assert_eq!(m.acquire_token().unwrap(), "k1");
    assert_eq!(m.acquire_token().unwrap(), "k2");
    assert_eq!(m.acquire_token().unwrap(), "k1");
}

#[test]
fn empty_pool_without_accounts_signals() {
    let mut m = KeyRotationManager::new();
    assert_eq!(m.acquire_token(), Err(EmptyPoolError));
    assert_eq!(m.acquire_token(), Err(EmptyPoolError));
}

#[test]
fn empty_pool_with_keyless_accounts_signals() {
    let mut m = KeyRotationManager::new();
    m.register(cred("a@example.com")).unwrap();
    m.register(cred("b@example.com")).unwrap();
    assert_eq!(m.acquire_token(), Err(EmptyPoolError));
}

#[test]
fn pool_refreshed_to_zero_keys_signals() {
    let mut m = two_account_pool();
    m.refresh_account(0, Vec::new(), ip(), now());
    m.refresh_account(1, Vec::new(), ip(), now());
    assert_eq!(m.acquire_token(), Err(EmptyPoolError));
}

#[test]
fn duplicate_registration_fails_and_keeps_keys() {
    let mut m = KeyRotationManager::new();
    m.register(cred("a@example.com")).unwrap();
    m.refresh_account(0, vec![key("k1", &[], FUTURE)], ip(), now());
    assert_eq!(m.register(cred("a@example.com")), Err(DuplicateAccountError));
    assert_eq!(m.acquire_token().unwrap(), "k1");
    assert_eq!(m.acquire_token().unwrap(), "k1");
}

#[test]
fn deregister_removes_account_from_rotation() {
    let mut m = two_account_pool();
    m.deregister("a@example.com").unwrap();
    assert_eq!(m.acquire_token().unwrap(), "k3");
    assert_eq!(m.acquire_token().unwrap(), "k3");
}

#[test]
fn deregister_unknown_email_fails() {
    let mut m = two_account_pool();
    assert_eq!(m.deregister("nobody@example.com"), Err(NotFoundError));
    assert_eq!(m.acquire_token().unwrap(), "k1");
}

#[test]
fn deregister_last_account_empties_pool() {
    let mut m = KeyRotationManager::new();
    m.register(cred("a@example.com")).unwrap();
    m.refresh_account(0, vec![key("k1", &[], FUTURE)], ip(), now());
    m.deregister("a@example.com").unwrap();
    assert_eq!(m.acquire_token(), Err(EmptyPoolError));
}

#[test]
fn refresh_replaces_list_wholesale() {
    let mut m = two_account_pool();
    assert_eq!(m.acquire_token().unwrap(), "k1");
    m.refresh_account(0, vec![key("n1", &[], FUTURE), key("n2", &[], FUTURE)], ip(), now());
    let mut seen = Vec::new();
    for _ in 0..3 {
        seen.push(m.acquire_token().unwrap());
    }
    for s in &seen {
        assert!(s == "n1" || s == "n2" || s == "k3", "stale key served: {s}");
    }
}

#[test]
fn invalid_keys_never_appear_after_refresh() {
    let mut m = KeyRotationManager::new();
    m.register(cred("a@example.com")).unwrap();
    m.refresh_account(
        0,
        vec![
            key("good", &[], FUTURE),
            key("wrong-net", &["192.168.0.0/16"], FUTURE),
            key("expired", &[], "2001-01-01T00:00:00"),
        ],
        ip(),
        now(),
    );
    for _ in 0..6 {
        assert_eq!(m.acquire_token().unwrap(), "good");
    }
}

#[test]
fn apply_refresh_results_reports_per_account() {
    let mut m = KeyRotationManager::new();
    m.register(cred("a@example.com")).unwrap();
    m.register(cred("b@example.com")).unwrap();
    m.register(cred("c@example.com")).unwrap();
    let results = vec![
        Ok(vec![key("k1", &[], FUTURE)]),
        Err(RefreshError::Auth),
        Ok(vec![key("k3", &[], FUTURE)]),
    ];
    let report = m.apply_refresh_results(results, ip(), now());
    assert_eq!(report.attempted, 3);
    assert_eq!(report.succeeded, 2);
    assert_eq!(report.failures.len(), 1);
    assert_eq!(report.failures[0].account, 1);
    assert_eq!(report.failures[0].error, RefreshError::Auth);
    assert_eq!(m.acquire_token().unwrap(), "k1");
    assert_eq!(m.acquire_token().unwrap(), "k3");
}

#[test]
fn failed_account_keeps_last_known_good_keys() {
    let mut m = KeyRotationManager::new();
    m.register(cred("a@example.com")).unwrap();
    m.refresh_account(0, vec![key("k1", &[], FUTURE)], ip(), now());
    let report =
        m.apply_refresh_results(vec![Err(RefreshError::Transport)], ip(), now());
    assert_eq!(report.succeeded, 0);
    assert_eq!(m.acquire_token().unwrap(), "k1");
}
