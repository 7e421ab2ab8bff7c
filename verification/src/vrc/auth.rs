//! The credentials used against the VRChat API.
use vstd::prelude::*;

verus! {

/// All credentials that requests to the VRChat API may carry.
#[derive(Debug, Clone)]
pub struct Auth {
    pub basic_auth: Option<BasicAuth>,
    pub oauth_access_token: Option<String>,
    pub bearer_access_token: Option<String>,
    pub api_key: Option<ApiKey>,
}

impl Default for Auth {
    /// No credentials at all.
    fn default() -> (res: Self)
        ensures
            res.basic_auth is None,
            res.oauth_access_token is None,
            res.bearer_access_token is None,
            res.api_key is None,
    {
        Auth { basic_auth: None, oauth_access_token: None, bearer_access_token: None, api_key: None }
    }
}

/// A user name with an optional password.
#[derive(Debug, Clone)]
pub struct BasicAuth {
    pub username: String,
    pub password: Option<String>,
}

impl Default for BasicAuth {
    /// An empty user name and no password.
    fn default() -> (res: Self)
        ensures
            res.username@ == Seq::<char>::empty(),
            res.password is None,
    {
        BasicAuth { username: String::new(), password: None }
    }
}

/// The basic auth that a pair of user name and password (the form the VRChat API
/// client uses) stands for.
pub open spec fn basic_auth_of(pair: (String, Option<String>)) -> BasicAuth {
    BasicAuth { username: pair.0, password: pair.1 }
}

impl From<(String, Option<String>)> for BasicAuth {
    /// Takes the user name and password of the pair.
    fn from(value: (String, Option<String>)) -> (res: Self)
        ensures
            res == basic_auth_of(value),
    {
        BasicAuth { username: value.0, password: value.1 }
    }
}

impl vstd::std_specs::convert::FromSpecImpl<(String, Option<String>)> for BasicAuth {
    open spec fn obeys_from_spec() -> bool {
        true
    }

    open spec fn from_spec(v: (String, Option<String>)) -> BasicAuth {
        basic_auth_of(v)
    }
}

/// A copy of an optional text.
pub fn clone_text(s: &Option<String>) -> (res: Option<String>)
    ensures
        res == *s,
{
    match s {
        Some(t) => Some(t.clone()),
        None => None,
    }
}

impl BasicAuth {
    /// The user name and password as the pair that the VRChat API client takes.
    pub fn to_pair(&self) -> (res: (String, Option<String>))
        ensures
            res == (self.username, self.password),
    {
        (self.username.clone(), clone_text(&self.password))
    }
}

/// Going from the API client's pair to a basic auth and back gives the same pair.
pub proof fn lemma_basic_auth_pair_round_trip(pair: (String, Option<String>))
    ensures
        (basic_auth_of(pair).username, basic_auth_of(pair).password) == pair,
{
}

/// A key for the VRChat API, with an optional prefix.
#[derive(Debug, Clone)]
pub struct ApiKey {
    pub prefix: Option<String>,
    pub key: String,
}

impl Default for ApiKey {
    /// No prefix and an empty key.
    fn default() -> (res: Self)
        ensures
            res.prefix is None,
            res.key@ == Seq::<char>::empty(),
    {
        ApiKey { prefix: None, key: String::new() }
    }
}

/// The credentials of one request to the VRChat API, in the form that the API
/// client's configuration holds them: basic auth as (user name, password), the
/// API key as (prefix, key).
#[derive(Debug, Clone)]
pub struct RequestAuth {
    pub basic_auth: Option<(String, Option<String>)>,
    pub oauth_access_token: Option<String>,
    pub bearer_access_token: Option<String>,
    pub api_key: Option<(Option<String>, String)>,
}

/// The request credentials that `auth` stands for.
pub open spec fn request_auth_of(auth: Auth) -> RequestAuth {
    RequestAuth {
        basic_auth: match auth.basic_auth {
            Some(b) => Some((b.username, b.password)),
            None => None,
        },
        oauth_access_token: auth.oauth_access_token,
        bearer_access_token: auth.bearer_access_token,
        api_key: match auth.api_key {
            Some(k) => Some((k.prefix, k.key)),
            None => None,
        },
    }
}

impl Auth {
    /// The credentials that a request made with these settings carries.
    pub fn request_auth(&self) -> (res: RequestAuth)
        ensures
            res == request_auth_of(*self),
            res.oauth_access_token == self.oauth_access_token,
            res.bearer_access_token == self.bearer_access_token,
            res.basic_auth is Some <==> self.basic_auth is Some,
            self.basic_auth matches Some(b) ==> res.basic_auth == Some((b.username, b.password)),
            res.api_key is Some <==> self.api_key is Some,
            self.api_key matches Some(k) ==> res.api_key == Some((k.prefix, k.key)),
    {
        let basic_auth = match &self.basic_auth {
            Some(b) => Some(b.to_pair()),
            None => None,
        };
        let api_key = match &self.api_key {
            Some(k) => Some((clone_text(&k.prefix), k.key.clone())),
            None => None,
        };
        RequestAuth {
            basic_auth,
            oauth_access_token: clone_text(&self.oauth_access_token),
            bearer_access_token: clone_text(&self.bearer_access_token),
            api_key,
        }
    }
}

/// A request carries every credential of the settings, unchanged: the OAuth and bearer
/// tokens as they are, the basic auth as its user name and password, the API key as its
/// prefix and key, and none that the settings do not hold.
pub proof fn lemma_request_carries_every_credential(auth: Auth)
    ensures
        request_auth_of(auth).oauth_access_token == auth.oauth_access_token,
        request_auth_of(auth).bearer_access_token == auth.bearer_access_token,
        request_auth_of(auth).basic_auth is Some <==> auth.basic_auth is Some,
        auth.basic_auth matches Some(b) ==> request_auth_of(auth).basic_auth == Some((b.username, b.password)),
        request_auth_of(auth).api_key is Some <==> auth.api_key is Some,
        auth.api_key matches Some(k) ==> request_auth_of(auth).api_key == Some((k.prefix, k.key)),
{
}

} // verus!
