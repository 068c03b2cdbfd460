use coc_client::dev::{APIAccount, Credential, Index, Key, Keys, LoginResponse, Status};

#[test]
fn index_starts_at_origin() {
    let ix = Index::new();
    assert_eq!(ix.key_account_index(), 0);
    assert_eq!(ix.key_index(), 0);
}

#[test]
fn index_increments_key_position() {
    let mut ix = Index::new();
    ix.inc();
    ix.inc();
    assert_eq!(ix.key_account_index(), 0);
    assert_eq!(ix.key_index(), 2);
}

#[test]
fn index_advancing_account_resets_key() {
    let mut ix = Index::new();
    ix.inc();
    ix.inc_account();
    assert_eq!(ix.key_account_index(), 1);
    assert_eq!(ix.key_index(), 0);
}

#[test]
fn index_setters_and_reset() {
    let mut ix = Index::new();
    ix.set_key_account_index(3);
    ix.set_key_index(5);
    assert_eq!(ix.key_account_index(), 3);
    assert_eq!(ix.key_index(), 5);
    ix.reset();
    assert_eq!(ix.key_account_index(), 0);
    assert_eq!(ix.key_index(), 0);
}

#[test]
fn credential_keeps_fields() {
    let c = Credential::new(String::from("a@example.com"), String::from("pw"));
    assert_eq!(c.email, "a@example.com");
    assert_eq!(c.password, "pw");
}

#[test]
fn new_account_is_blank() {
    let a = APIAccount::new(Credential::new(String::from("a@example.com"), String::from("pw")));
    assert_eq!(a.credential().email, "a@example.com");
    assert!(a.keys().keys().is_empty());
    assert_eq!(a.response().session_expires_in_seconds, 0);
    assert!(a.response().temporary_api_token.is_empty());
}

#[test]
fn new_keys_are_empty() {
    let k = Keys::new();
    assert!(k.keys().is_empty());
    assert_eq!(k.session_expire(), 0);
    assert_eq!(k.status().code, 0);
}

#[test]
fn new_status_is_blank() {
    let s = Status::new();
    assert_eq!(s.code, 0);
    assert!(s.message.is_empty());
    assert!(s.detail.is_empty());
}

#[test]
fn login_response_starts_blank() {
    let r = LoginResponse::new();
    assert!(r.auth.token.is_empty());
    assert!(r.developer.email.is_empty());
    assert!(r.swagger_url.is_empty());
}

#[test]
fn key_getters_read_fields() {
    let k = Key {
        id: String::from("id0"),
        developer_id: String::from("d0"),
        tier: String::from("developer/silver"),
        name: String::from("main"),
        description: String::from("desc"),
        origins: String::from("origins"),
        scopes: vec![String::from("clash")],
        cidr_ranges: vec![String::from("10.0.0.0/8")],
        valid_until: String::from("2099-01-01T00:00:00"),
        key: String::from("secret"),
    };
    assert_eq!(k.id(), "id0");
    assert_eq!(k.developer_id(), "d0");
    assert_eq!(k.tier(), "developer/silver");
    assert_eq!(k.name(), "main");
    assert_eq!(k.description(), "desc");
    assert_eq!(k.origins(), "origins");
    assert_eq!(k.scopes(), &vec![String::from("clash")]);
    assert_eq!(k.cidr_ranges(), &vec![String::from("10.0.0.0/8")]);
    assert_eq!(k.valid_until(), "2099-01-01T00:00:00");
    assert_eq!(k.key(), "secret");
}
