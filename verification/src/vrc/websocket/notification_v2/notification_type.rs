//! The type of a notification, and its text form.
use vstd::prelude::*;
use crate::text::str_equals;

verus! {

/// The type of a notification.
#[derive(Debug, Clone, PartialEq, Eq, PartialOrd, Ord, Hash)]
pub enum NotificationV2Type {
    GroupAnnouncement,
    Other(String),
}

/// The mathematical value of a [`NotificationV2Type`]: its variant, and the text of `Other`.
pub enum SpecNotificationV2Type {
    GroupAnnouncement,
    Other(Seq<char>),
}

impl View for NotificationV2Type {
    type V = SpecNotificationV2Type;

    open spec fn view(&self) -> SpecNotificationV2Type {
        match self {
            NotificationV2Type::GroupAnnouncement => SpecNotificationV2Type::GroupAnnouncement,
            NotificationV2Type::Other(s) => SpecNotificationV2Type::Other(s@),
        }
    }
}

/// Whether `s` is the text of one of the named variants of [`NotificationV2Type`].
pub open spec fn is_notification_type_name(s: Seq<char>) -> bool {
    s == "group.announcement"@
}

/// The value that a text reads as: the variant named by it, else `Other` with the text.
pub open spec fn notification_type_from_text(s: Seq<char>) -> SpecNotificationV2Type {
    if s == "group.announcement"@ {
        SpecNotificationV2Type::GroupAnnouncement
    } else {
        SpecNotificationV2Type::Other(s)
    }
}

/// The text that a value is written as.
pub open spec fn notification_type_text(v: SpecNotificationV2Type) -> Seq<char> {
    match v {
        SpecNotificationV2Type::GroupAnnouncement => "group.announcement"@,
        SpecNotificationV2Type::Other(s) => s,
    }
}

impl From<&str> for NotificationV2Type {
    /// Reads `value`: the variant that it names, else `Other` holding it.
    fn from(value: &str) -> (res: Self)
        ensures
            res@ == notification_type_from_text(value@),
    {
        if str_equals(value, "group.announcement") {
            NotificationV2Type::GroupAnnouncement
        } else {
            NotificationV2Type::Other(String::from_str(value))
        }
    }
}

/// `from` is specified by its own `ensures`, over the view: a `String` is known to Verus
/// through its view only, so `from_spec` is not claimed to be the exact result.
impl vstd::std_specs::convert::FromSpecImpl<&str> for NotificationV2Type {
    open spec fn obeys_from_spec() -> bool {
        false
    }

    open spec fn from_spec(v: &str) -> NotificationV2Type {
        choose|r: NotificationV2Type| r@ == notification_type_from_text(v@)
    }
}

impl From<NotificationV2Type> for String {
    /// Writes `value` as its text.
    fn from(value: NotificationV2Type) -> (res: String)
        ensures
            res@ == notification_type_text(value@),
    {
        match value {
            NotificationV2Type::GroupAnnouncement => String::from_str("group.announcement"),
            NotificationV2Type::Other(other) => other,
        }
    }
}

impl NotificationV2Type {
    /// The text that the value is written as.
    pub fn to_text(&self) -> (res: String)
        ensures
            res@ == notification_type_text(self@),
    {
        match self {
            NotificationV2Type::GroupAnnouncement => String::from_str("group.announcement"),
            NotificationV2Type::Other(other) => other.clone(),
        }
    }
}

/// `from` is specified by its own `ensures`, over the view of the `String`.
impl vstd::std_specs::convert::FromSpecImpl<NotificationV2Type> for String {
    open spec fn obeys_from_spec() -> bool {
        false
    }

    open spec fn from_spec(v: NotificationV2Type) -> String {
        choose|r: String| r@ == notification_type_text(v@)
    }
}

/// Reading any text as a [`NotificationV2Type`] and writing it back gives the same text.
pub proof fn lemma_notification_type_text_round_trip(s: Seq<char>)
    ensures
        notification_type_text(notification_type_from_text(s)) == s,
{
    reveal_strlit("group.announcement");
}

/// Writing a [`NotificationV2Type`] as text and reading it back gives the same value, unless it
/// is an `Other` whose text names one of the other variants.
pub proof fn lemma_notification_type_value_round_trip(v: SpecNotificationV2Type)
    requires
        !(v matches SpecNotificationV2Type::Other(s) && is_notification_type_name(s)),
    ensures
        notification_type_from_text(notification_type_text(v)) == v,
{
    reveal_strlit("group.announcement");
}

} // verus!
