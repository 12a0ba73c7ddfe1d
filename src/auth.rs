use crate::text::append;
use vstd::prelude::*;

verus! {

/// A bearer token as the token endpoint issues it: the opaque token text and
/// its lifetime in seconds, counted from issuance.
pub struct AccessToken {
    pub token: String,
    pub expires_in: u64,
}

impl AccessToken {
    /// A copy of this token, field for field.
    pub fn snapshot(&self) -> (r: AccessToken)
        ensures
            r == *self,
    {
        AccessToken { token: self.token.clone(), expires_in: self.expires_in }
    }
}

/// The client identifier and secret of one application, captured once.
pub struct Credentials {
    id: String,
    secret: String,
}

impl Credentials {
    pub fn new(id: String, secret: String) -> (r: Credentials)
        ensures
            r.id_view() == id@,
            r.secret_view() == secret@,
    {
        Credentials { id, secret }
    }

    pub closed spec fn id_view(&self) -> Seq<char> {
        self.id@
    }

    pub closed spec fn secret_view(&self) -> Seq<char> {
        self.secret@
    }

    /// The user name of the Basic authentication of the token request.
    pub fn id(&self) -> (r: &str)
        ensures
            r@ == self.id_view(),
    {
        self.id.as_str()
    }

    /// The password of the Basic authentication of the token request.
    pub fn secret(&self) -> (r: &str)
        ensures
            r@ == self.secret_view(),
    {
        self.secret.as_str()
    }
}

/// Seconds before a token's reported expiry at which it is replaced.
pub const SAFETY_MARGIN: u64 = 10;

/// How long to wait before replacing a token that lives `expires_in` seconds.
pub open spec fn wait_for(expires_in: u64) -> u64 {
    if expires_in > SAFETY_MARGIN {
        (expires_in - SAFETY_MARGIN) as u64
    } else {
        0
    }
}

/// The number of seconds to wait before refreshing a token that lives
/// `expires_in` seconds: the lifetime less the safety margin, never negative.
pub fn next_wait(expires_in: u64) -> (r: u64)
    ensures
        r == wait_for(expires_in),
        r as int == if expires_in as int - 10 > 0 { expires_in as int - 10 } else { 0 },
{
    if expires_in > SAFETY_MARGIN {
        expires_in - SAFETY_MARGIN
    } else {
        0
    }
}

/// The deployment the client talks to.
pub enum Environment {
    Sandbox,
    Production,
}

pub open spec fn sandbox_url() -> Seq<char> {
    "https://api.sandbox.paypal.com"@
}

pub open spec fn production_url() -> Seq<char> {
    "https://api.paypal.com"@
}

impl Environment {
    pub open spec fn url_view(&self) -> Seq<char> {
        match self {
            Environment::Sandbox => sandbox_url(),
            Environment::Production => production_url(),
        }
    }

    /// The base URL of the deployment's REST API.
    pub fn base_url(&self) -> (r: &'static str)
        ensures
            r@ == self.url_view(),
    {
        match self {
            Environment::Sandbox => "https://api.sandbox.paypal.com",
            Environment::Production => "https://api.paypal.com",
        }
    }
}

pub open spec fn token_path() -> Seq<char> {
    "/v1/oauth2/token?grant_type=client_credentials"@
}

/// The URL that a client-credentials token request is posted to.
pub fn token_url(base_url: &str) -> (r: String)
    ensures
        r@ == base_url@ + token_path(),
{
    let mut url = base_url.to_owned();
    append(&mut url, "/v1/oauth2/token?grant_type=client_credentials");
    url
}

} // verus!
