//! The icon of a response to a notification, and its text form.
use vstd::prelude::*;
use crate::text::str_equals;

verus! {

/// The icon of a response to a notification.
#[derive(Debug, Clone, PartialEq, Eq, PartialOrd, Ord, Hash)]
pub enum NotificationV2ResponseIcon {
    Check,
    BellSlash,
    Other(String),
}

/// The mathematical value of a [`NotificationV2ResponseIcon`]: its variant, and the text of `Other`.
pub enum SpecNotificationV2ResponseIcon {
    Check,
    BellSlash,
    Other(Seq<char>),
}

impl View for NotificationV2ResponseIcon {
    type V = SpecNotificationV2ResponseIcon;

    open spec fn view(&self) -> SpecNotificationV2ResponseIcon {
        match self {
            NotificationV2ResponseIcon::Check => SpecNotificationV2ResponseIcon::Check,
            NotificationV2ResponseIcon::BellSlash => SpecNotificationV2ResponseIcon::BellSlash,
            NotificationV2ResponseIcon::Other(s) => SpecNotificationV2ResponseIcon::Other(s@),
        }
    }
}

/// Whether `s` is the text of one of the named variants of [`NotificationV2ResponseIcon`].
pub open spec fn is_response_icon_name(s: Seq<char>) -> bool {
    s == "check"@
    || s == "bell-slash"@
}

/// The value that a text reads as: the variant named by it, else `Other` with the text.
pub open spec fn response_icon_from_text(s: Seq<char>) -> SpecNotificationV2ResponseIcon {
    if s == "check"@ {
        SpecNotificationV2ResponseIcon::Check
    } else if s == "bell-slash"@ {
        SpecNotificationV2ResponseIcon::BellSlash
    } else {
        SpecNotificationV2ResponseIcon::Other(s)
    }
}

/// The text that a value is written as.
pub open spec fn response_icon_text(v: SpecNotificationV2ResponseIcon) -> Seq<char> {
    match v {
        SpecNotificationV2ResponseIcon::Check => "check"@,
        SpecNotificationV2ResponseIcon::BellSlash => "bell-slash"@,
        SpecNotificationV2ResponseIcon::Other(s) => s,
    }
}

impl From<&str> for NotificationV2ResponseIcon {
    /// Reads `value`: the variant that it names, else `Other` holding it.
    fn from(value: &str) -> (res: Self)
        ensures
            res@ == response_icon_from_text(value@),
    {
        if str_equals(value, "check") {
            NotificationV2ResponseIcon::Check
        } else if str_equals(value, "bell-slash") {
            NotificationV2ResponseIcon::BellSlash
        } else {
            NotificationV2ResponseIcon::Other(String::from_str(value))
        }
    }
}

/// `from` is specified by its own `ensures`, over the view: a `String` is known to Verus
/// through its view only, so `from_spec` is not claimed to be the exact result.
impl vstd::std_specs::convert::FromSpecImpl<&str> for NotificationV2ResponseIcon {
    open spec fn obeys_from_spec() -> bool {
        false
    }

    open spec fn from_spec(v: &str) -> NotificationV2ResponseIcon {
        choose|r: NotificationV2ResponseIcon| r@ == response_icon_from_text(v@)
    }
}

impl From<NotificationV2ResponseIcon> for String {
    /// Writes `value` as its text.
    fn from(value: NotificationV2ResponseIcon) -> (res: String)
        ensures
            res@ == response_icon_text(value@),
    {
        match value {
            NotificationV2ResponseIcon::Check => String::from_str("check"),
            NotificationV2ResponseIcon::BellSlash => String::from_str("bell-slash"),
            NotificationV2ResponseIcon::Other(other) => other,
        }
    }
}

impl NotificationV2ResponseIcon {
    /// The text that the value is written as.
    pub fn to_text(&self) -> (res: String)
        ensures
            res@ == response_icon_text(self@),
    {
        match self {
            NotificationV2ResponseIcon::Check => String::from_str("check"),
            NotificationV2ResponseIcon::BellSlash => String::from_str("bell-slash"),
            NotificationV2ResponseIcon::Other(other) => other.clone(),
        }
    }
}

/// `from` is specified by its own `ensures`, over the view of the `String`.
impl vstd::std_specs::convert::FromSpecImpl<NotificationV2ResponseIcon> for String {
    open spec fn obeys_from_spec() -> bool {
        false
    }

    open spec fn from_spec(v: NotificationV2ResponseIcon) -> String {
        choose|r: String| r@ == response_icon_text(v@)
    }
}

/// Reading any text as a [`NotificationV2ResponseIcon`] and writing it back gives the same text.
pub proof fn lemma_response_icon_text_round_trip(s: Seq<char>)
    ensures
        response_icon_text(response_icon_from_text(s)) == s,
{
    reveal_strlit("check");
    reveal_strlit("bell-slash");
}

/// Writing a [`NotificationV2ResponseIcon`] as text and reading it back gives the same value, unless it
/// is an `Other` whose text names one of the other variants.
pub proof fn lemma_response_icon_value_round_trip(v: SpecNotificationV2ResponseIcon)
    requires
        !(v matches SpecNotificationV2ResponseIcon::Other(s) && is_response_icon_name(s)),
    ensures
        response_icon_from_text(response_icon_text(v)) == v,
{
    reveal_strlit("check");
    reveal_strlit("bell-slash");
    assert("check"@.len() != "bell-slash"@.len());
}

} // verus!
