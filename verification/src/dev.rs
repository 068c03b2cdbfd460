//! Developer-portal account data: login credentials, session state, and the
//! API keys a portal account owns.

use vstd::prelude::*;

verus! {

/// Cursor over (account position, key position), advanced after every token
/// hand-out.
pub struct Index {
    pub key_account_index: i8,
    pub key_index: i8,
}

impl Index {
    pub fn new() -> (r: Self)
        ensures
            r.key_account_index == 0,
            r.key_index == 0,
    {
        Self { key_account_index: 0, key_index: 0 }
    }

    pub fn key_account_index(&self) -> (r: i8)
        ensures
            r == self.key_account_index,
    {
        self.key_account_index
    }

    pub fn key_index(&self) -> (r: i8)
        ensures
            r == self.key_index,
    {
        self.key_index
    }

    pub fn set_key_account_index(&mut self, key_account_index: i8)
        ensures
            final(self).key_account_index == key_account_index,
            final(self).key_index == old(self).key_index,
    {
        self.key_account_index = key_account_index;
    }

    pub fn set_key_index(&mut self, key_index: i8)
        ensures
            final(self).key_account_index == old(self).key_account_index,
            final(self).key_index == key_index,
    {
        self.key_index = key_index;
    }

    pub fn reset(&mut self)
        ensures
            final(self).key_account_index == 0,
            final(self).key_index == 0,
    {
        self.key_account_index = 0;
        self.key_index = 0;
    }

    /// Advance to the next key of the same account.
    pub fn inc(&mut self)
        requires
            old(self).key_index < i8::MAX,
        ensures
            final(self).key_account_index == old(self).key_account_index,
            final(self).key_index == old(self).key_index + 1,
    {
        self.key_index = self.key_index + 1;
    }

    /// Advance to the next account, starting again at its first key.
    pub fn inc_account(&mut self)
        requires
            old(self).key_account_index < i8::MAX,
        ensures
            final(self).key_account_index == old(self).key_account_index + 1,
            final(self).key_index == 0,
    {
        self.key_account_index = self.key_account_index + 1;
        self.key_index = 0;
    }
}

/// An email/password pair identifying one developer-portal account.
pub struct Credential {
    pub email: String,
    pub password: String,
}

impl Credential {
    pub fn new(email: String, password: String) -> (r: Self)
        ensures
            r.email == email,
            r.password == password,
    {
        Credential { email, password }
    }
}

/// One developer-portal account: its login credential, the state of its last
/// login, and the keys it currently contributes to rotation.
pub struct APIAccount {
    pub credential: Credential,
    pub response: LoginResponse,
    pub keys: Keys,
}

impl APIAccount {
    pub fn new(credential: Credential) -> (r: Self)
        ensures
            r.credential == credential,
            r.response.is_blank(),
            r.keys.keys@ == Seq::<Key>::empty(),
    {
        Self { credential, response: LoginResponse::new(), keys: Keys::new() }
    }

    pub fn credential(&self) -> (r: &Credential)
        ensures
            *r == self.credential,
    {
        &self.credential
    }

    pub fn response(&self) -> (r: &LoginResponse)
        ensures
            *r == self.response,
    {
        &self.response
    }

    pub fn keys(&self) -> (r: &Keys)
        ensures
            *r == self.keys,
    {
        &self.keys
    }
}

/// The body returned by the portal's login endpoint.
pub struct LoginResponse {
    pub status: Status,
    pub session_expires_in_seconds: i32,
    pub auth: Auth,
    pub developer: Developer,
    pub temporary_api_token: String,
    pub swagger_url: String,
}

impl LoginResponse {
    /// Holds when every field still has its empty default value, i.e. no
    /// login has filled the response in yet.
    pub open spec fn is_blank(self) -> bool {
        &&& self.status.is_blank()
        &&& self.session_expires_in_seconds == 0
        &&& self.auth.is_blank()
        &&& self.developer.is_blank()
        &&& self.temporary_api_token@ == Seq::<char>::empty()
        &&& self.swagger_url@ == Seq::<char>::empty()
    }

    pub fn new() -> (r: Self)
        ensures
            r.is_blank(),
    {
        Self {
            status: Status::new(),
            session_expires_in_seconds: 0,
            auth: Auth::new(),
            developer: Developer::new(),
            temporary_api_token: String::new(),
            swagger_url: String::new(),
        }
    }
}

/// The auth object inside a login response.
pub struct Auth {
    pub uid: String,
    pub token: String,
    pub ua: String,
    pub ip: String,
}

impl Auth {
    pub open spec fn is_blank(self) -> bool {
        &&& self.uid@ == Seq::<char>::empty()
        &&& self.token@ == Seq::<char>::empty()
        &&& self.ua@ == Seq::<char>::empty()
        &&& self.ip@ == Seq::<char>::empty()
    }

    pub fn new() -> (r: Self)
        ensures
            r.is_blank(),
    {
        Self { uid: String::new(), token: String::new(), ua: String::new(), ip: String::new() }
    }
}

/// The developer object inside a login response.
pub struct Developer {
    pub id: String,
    pub name: String,
    pub game: String,
    pub email: String,
    pub tier: String,
    pub allowed_scopes: String,
    pub max_cidrs: String,
    pub prev_login_ts: String,
    pub prev_login_ip: String,
    pub prev_login_ua: String,
}

impl Developer {
    pub open spec fn is_blank(self) -> bool {
        &&& self.id@ == Seq::<char>::empty()
        &&& self.name@ == Seq::<char>::empty()
        &&& self.game@ == Seq::<char>::empty()
        &&& self.email@ == Seq::<char>::empty()
        &&& self.tier@ == Seq::<char>::empty()
        &&& self.allowed_scopes@ == Seq::<char>::empty()
        &&& self.max_cidrs@ == Seq::<char>::empty()
        &&& self.prev_login_ts@ == Seq::<char>::empty()
        &&& self.prev_login_ip@ == Seq::<char>::empty()
        &&& self.prev_login_ua@ == Seq::<char>::empty()
    }

    pub fn new() -> (r: Self)
        ensures
            r.is_blank(),
    {
        Self {
            id: String::new(),
            name: String::new(),
            game: String::new(),
            email: String::new(),
            tier: String::new(),
            allowed_scopes: String::new(),
            max_cidrs: String::new(),
            prev_login_ts: String::new(),
            prev_login_ip: String::new(),
            prev_login_ua: String::new(),
        }
    }
}

/// The body returned by the portal's key-listing endpoint.
pub struct Keys {
    pub keys: Vec<Key>,
    pub status: Status,
    pub session_expire: i32,
}

impl Keys {
    pub fn new() -> (r: Self)
        ensures
            r.keys@ == Seq::<Key>::empty(),
            r.status.is_blank(),
            r.session_expire == 0,
    {
        Self { keys: Vec::new(), status: Status::new(), session_expire: 0 }
    }

    pub fn keys(&self) -> (r: &Vec<Key>)
        ensures
            *r == self.keys,
    {
        &self.keys
    }

    pub fn status(&self) -> (r: &Status)
        ensures
            *r == self.status,
    {
        &self.status
    }

    pub fn session_expire(&self) -> (r: i32)
        ensures
            r == self.session_expire,
    {
        self.session_expire
    }
}

/// One issued API key plus its metadata.
pub struct Key {
    pub id: String,
    pub developer_id: String,
    pub tier: String,
    pub name: String,
    pub description: String,
    pub origins: String,
    pub scopes: Vec<String>,
    pub cidr_ranges: Vec<String>,
    pub valid_until: String,
    pub key: String,
}

impl Key {
    pub fn id(&self) -> (r: &str)
        ensures
            r@ == self.id@,
    {
        self.id.as_str()
    }

    pub fn developer_id(&self) -> (r: &str)
        ensures
            r@ == self.developer_id@,
    {
        self.developer_id.as_str()
    }

    pub fn tier(&self) -> (r: &str)
        ensures
            r@ == self.tier@,
    {
        self.tier.as_str()
    }

    pub fn name(&self) -> (r: &str)
        ensures
            r@ == self.name@,
    {
        self.name.as_str()
    }

    pub fn description(&self) -> (r: &str)
        ensures
            r@ == self.description@,
    {
        self.description.as_str()
    }

    pub fn origins(&self) -> (r: &str)
        ensures
            r@ == self.origins@,
    {
        self.origins.as_str()
    }

    pub fn scopes(&self) -> (r: &Vec<String>)
        ensures
            *r == self.scopes,
    {
        &self.scopes
    }

    pub fn cidr_ranges(&self) -> (r: &Vec<String>)
        ensures
            *r == self.cidr_ranges,
    {
        &self.cidr_ranges
    }

    pub fn valid_until(&self) -> (r: &str)
        ensures
            r@ == self.valid_until@,
    {
        self.valid_until.as_str()
    }

    pub fn key(&self) -> (r: &str)
        ensures
            r@ == self.key@,
    {
        self.key.as_str()
    }
}

/// Status object carried by every portal response body.
pub struct Status {
    pub code: i32,
    pub message: String,
    pub detail: String,
}

impl Status {
    pub open spec fn is_blank(self) -> bool {
        &&& self.code == 0
        &&& self.message@ == Seq::<char>::empty()
        &&& self.detail@ == Seq::<char>::empty()
    }

    pub fn new() -> (r: Self)
        ensures
            r.is_blank(),
    {
        Self { code: 0, message: String::new(), detail: String::new() }
    }
}

} // verus!
