//! The VRChat side of the relay: credentials, the login session, time formatting
//! and the messages of the VRChat websocket.
use vstd::prelude::*;

pub mod auth;
pub mod session;
pub mod time;
pub mod websocket;

verus! {

/// The host of the VRChat API.
pub const DOMAIN: &'static str = "api.vrchat.cloud";

/// The root of all VRChat API paths.
pub const BASE_PATH: &'static str = "https://api.vrchat.cloud/api/1";

/// The user agent sent with every request.
pub const VRC_USER_AGENT: &'static str = "vrc-logger/private-indev c0d3m4513r@c0d3m4513r.com";

/// How a second factor is given when logging in.
#[derive(Debug, Clone, Copy, PartialEq, Eq, Structural, PartialOrd, Ord, Hash)]
pub enum TwoFaMethod {
    Email,
    OTP,
    TOTP,
}

impl Default for TwoFaMethod {
    /// A code sent by e-mail.
    fn default() -> (res: Self)
        ensures
            res == TwoFaMethod::Email,
    {
        TwoFaMethod::Email
    }
}

/// The name under which a method is shown.
pub open spec fn two_fa_method_text(m: TwoFaMethod) -> Seq<char> {
    match m {
        TwoFaMethod::Email => "Email"@,
        TwoFaMethod::OTP => "OTP"@,
        TwoFaMethod::TOTP => "Recovery Code"@,
    }
}

/// The VRChat API call that checks a code given with a method.
#[derive(Debug, Clone, Copy, PartialEq, Eq, Structural)]
pub enum TwoFaCheck {
    /// `verify2_fa_email_code`
    EmailCode,
    /// `verify2_fa`
    AuthenticatorCode,
    /// `verify_recovery_code`
    RecoveryCode,
}

impl TwoFaMethod {
    /// The name under which the method is shown, as `Display` writes it.
    pub fn to_string(&self) -> (res: String)
        ensures
            res@ == two_fa_method_text(*self),
    {
        match self {
            TwoFaMethod::Email => String::from_str("Email"),
            TwoFaMethod::OTP => String::from_str("OTP"),
            TwoFaMethod::TOTP => String::from_str("Recovery Code"),
        }
    }

    /// The API call that checks a code given with this method.
    pub fn check(&self) -> (res: TwoFaCheck)
        ensures
            res == (match *self {
                TwoFaMethod::Email => TwoFaCheck::EmailCode,
                TwoFaMethod::OTP => TwoFaCheck::AuthenticatorCode,
                TwoFaMethod::TOTP => TwoFaCheck::RecoveryCode,
            }),
    {
        match self {
            TwoFaMethod::Email => TwoFaCheck::EmailCode,
            TwoFaMethod::OTP => TwoFaCheck::AuthenticatorCode,
            TwoFaMethod::TOTP => TwoFaCheck::RecoveryCode,
        }
    }
}

} // verus!
