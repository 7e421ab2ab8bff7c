//! The login session with the VRChat API: who is logged in and with which
//! credentials, and how each API reply changes that.
use vstd::prelude::*;
use crate::vrc::auth::{basic_auth_of, request_auth_of, Auth, BasicAuth, RequestAuth};

verus! {

/// Why a login or logout is refused before any request is made.
#[derive(Debug, Clone, Copy, PartialEq, Eq, Structural)]
pub enum SessionRefusal {
    AlreadyLoggedIn,
    NotLoggedIn,
}

/// What the VRChat API answered when asked for the current user.
#[derive(Debug)]
pub enum CurrentUserReply<U> {
    /// The request was authenticated as this user.
    CurrentUser(U),
    /// A second factor must be given first.
    RequiresTwoFactorAuth,
    /// The request failed.
    Failed,
}

/// The state of a connection to the VRChat API: the user it is logged in as, if
/// any, and the credentials that requests carry. `U` is the user as the API
/// client returns it.
#[derive(Debug)]
pub struct Session<U> {
    pub logged_in: Option<U>,
    pub auth: Auth,
}

/// The request credentials of `auth` without the basic auth.
pub open spec fn without_basic_auth(r: RequestAuth) -> RequestAuth {
    RequestAuth { basic_auth: None, ..r }
}

impl<U> Session<U> {
    /// A session that is not logged in, with the given credentials.
    pub fn new(auth: Auth) -> (res: Self)
        ensures
            res.logged_in is None,
            res.auth == auth,
    {
        Session { logged_in: None, auth }
    }

    /// The credentials that requests of this session carry.
    pub fn request_auth(&self) -> (res: RequestAuth)
        ensures
            res == request_auth_of(self.auth),
    {
        self.auth.request_auth()
    }

    /// Sets the basic auth. While logged in this is refused and nothing changes: log
    /// out first.
    pub fn set_auth(&mut self, auth: (String, Option<String>)) -> (res: Result<(), ()>)
        ensures
            old(self).logged_in is Some ==> res is Err && *final(self) == *old(self),
            old(self).logged_in is None ==> res is Ok && final(self).logged_in is None
                && final(self).auth == (Auth { basic_auth: Some(basic_auth_of(auth)), ..old(self).auth }),
    {
        if self.logged_in.is_some() {
            return Err(());
        }
        self.auth.basic_auth = Some(BasicAuth::from(auth));
        Ok(())
    }

    /// The credentials of a login request, without the basic auth when asked; refused
    /// when already logged in.
    pub fn login_request(&self, exclude_basic_auth: bool) -> (res: Result<RequestAuth, SessionRefusal>)
        ensures
            self.logged_in is Some ==> res == Err::<RequestAuth, SessionRefusal>(SessionRefusal::AlreadyLoggedIn),
            self.logged_in is None && !exclude_basic_auth ==> res == Ok::<RequestAuth, SessionRefusal>(request_auth_of(self.auth)),
            self.logged_in is None && exclude_basic_auth ==> res == Ok::<RequestAuth, SessionRefusal>(without_basic_auth(request_auth_of(self.auth))),
    {
        if self.logged_in.is_some() {
            return Err(SessionRefusal::AlreadyLoggedIn);
        }
        let mut request = self.auth.request_auth();
        if exclude_basic_auth {
            request.basic_auth = None;
        }
        Ok(request)
    }

    /// The credentials with which a stored login is checked: never the basic auth.
    pub fn check_request(&self) -> (res: RequestAuth)
        ensures
            res == without_basic_auth(request_auth_of(self.auth)),
    {
        let mut request = self.auth.request_auth();
        request.basic_auth = None;
        request
    }

    /// Takes the reply to a login request. A current user logs the session in, and
    /// the websocket is then to be started (the result is `true`); any other reply
    /// changes nothing.
    pub fn finish_login(&mut self, reply: CurrentUserReply<U>) -> (start_websocket: bool)
        ensures
            start_websocket == (reply is CurrentUser),
            reply matches CurrentUserReply::CurrentUser(u) ==> final(self).logged_in == Some(u),
            !(reply is CurrentUser) ==> final(self).logged_in == old(self).logged_in,
            final(self).auth == old(self).auth,
    {
        match reply {
            CurrentUserReply::CurrentUser(user) => {
                self.logged_in = Some(user);
                true
            },
            _ => false,
        }
    }

    /// Takes the reply to a check of a stored login, which re-establishes that the
    /// session is logged in exactly when the API says so. A current user logs the
    /// session in, and the websocket is then to be started (the result is `true`);
    /// a request for a second factor, or a failed check, forgets the login.
    pub fn finish_check(&mut self, reply: CurrentUserReply<U>) -> (start_websocket: bool)
        ensures
            start_websocket == (reply is CurrentUser),
            reply matches CurrentUserReply::CurrentUser(u) ==> final(self).logged_in == Some(u),
            !(reply is CurrentUser) ==> final(self).logged_in is None,
            final(self).auth == old(self).auth,
    {
        match reply {
            CurrentUserReply::CurrentUser(user) => {
                self.logged_in = Some(user);
                true
            },
            _ => {
                self.logged_in = None;
                false
            },
        }
    }

    /// The credentials of a logout request; refused when not logged in.
    pub fn logout_request(&self) -> (res: Result<RequestAuth, SessionRefusal>)
        ensures
            self.logged_in is None ==> res == Err::<RequestAuth, SessionRefusal>(SessionRefusal::NotLoggedIn),
            self.logged_in is Some ==> res == Ok::<RequestAuth, SessionRefusal>(request_auth_of(self.auth)),
    {
        if self.logged_in.is_none() {
            return Err(SessionRefusal::NotLoggedIn);
        }
        Ok(self.auth.request_auth())
    }

    /// Takes a successful logout: the session is no longer logged in and forgets the
    /// basic auth; the other credentials stay.
    pub fn finish_logout(&mut self)
        ensures
            final(self).logged_in is None,
            final(self).auth == (Auth { basic_auth: None, ..old(self).auth }),
    {
        self.logged_in = None;
        self.auth.basic_auth = None;
    }
}

/// A request without basic auth carries no user name and password, and every other
/// credential of the settings unchanged.
pub proof fn lemma_request_without_basic_auth(auth: Auth)
    ensures
        without_basic_auth(request_auth_of(auth)).basic_auth is None,
        without_basic_auth(request_auth_of(auth)).oauth_access_token == auth.oauth_access_token,
        without_basic_auth(request_auth_of(auth)).bearer_access_token == auth.bearer_access_token,
        without_basic_auth(request_auth_of(auth)).api_key is Some <==> auth.api_key is Some,
        auth.api_key matches Some(k) ==> without_basic_auth(request_auth_of(auth)).api_key == Some(
            (k.prefix, k.key),
        ),
{
}

} // verus!
