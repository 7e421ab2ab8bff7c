//! The category of a notification, and its text form.
use vstd::prelude::*;
use crate::text::str_equals;

verus! {

/// The category of a notification.
#[derive(Debug, Clone, PartialEq, Eq, PartialOrd, Ord, Hash)]
pub enum NotificationV2Category {
    SocialGroup,
    Other(String),
}

/// The mathematical value of a [`NotificationV2Category`]: its variant, and the text of `Other`.
pub enum SpecNotificationV2Category {
    SocialGroup,
    Other(Seq<char>),
}

impl View for NotificationV2Category {
    type V = SpecNotificationV2Category;

    open spec fn view(&self) -> SpecNotificationV2Category {
        match self {
            NotificationV2Category::SocialGroup => SpecNotificationV2Category::SocialGroup,
            NotificationV2Category::Other(s) => SpecNotificationV2Category::Other(s@),
        }
    }
}

/// Whether `s` is the text of one of the named variants of [`NotificationV2Category`].
pub open spec fn is_category_name(s: Seq<char>) -> bool {
    s == "social.group"@
}

/// The value that a text reads as: the variant named by it, else `Other` with the text.
pub open spec fn category_from_text(s: Seq<char>) -> SpecNotificationV2Category {
    if s == "social.group"@ {
        SpecNotificationV2Category::SocialGroup
    } else {
        SpecNotificationV2Category::Other(s)
    }
}

/// The text that a value is written as.
pub open spec fn category_text(v: SpecNotificationV2Category) -> Seq<char> {
    match v {
        SpecNotificationV2Category::SocialGroup => "social.group"@,
        SpecNotificationV2Category::Other(s) => s,
    }
}

impl From<&str> for NotificationV2Category {
    /// Reads `value`: the variant that it names, else `Other` holding it.
    fn from(value: &str) -> (res: Self)
        ensures
            res@ == category_from_text(value@),
    {
        if str_equals(value, "social.group") {
            NotificationV2Category::SocialGroup
        } else {
            NotificationV2Category::Other(String::from_str(value))
        }
    }
}

/// `from` is specified by its own `ensures`, over the view: a `String` is known to Verus
/// through its view only, so `from_spec` is not claimed to be the exact result.
impl vstd::std_specs::convert::FromSpecImpl<&str> for NotificationV2Category {
    open spec fn obeys_from_spec() -> bool {
        false
    }

    open spec fn from_spec(v: &str) -> NotificationV2Category {
        choose|r: NotificationV2Category| r@ == category_from_text(v@)
    }
}

impl From<NotificationV2Category> for String {
    /// Writes `value` as its text.
    fn from(value: NotificationV2Category) -> (res: String)
        ensures
            res@ == category_text(value@),
    {
        match value {
            NotificationV2Category::SocialGroup => String::from_str("social.group"),
            NotificationV2Category::Other(other) => other,
        }
    }
}

impl NotificationV2Category {
    /// The text that the value is written as.
    pub fn to_text(&self) -> (res: String)
        ensures
            res@ == category_text(self@),
    {
        match self {
            NotificationV2Category::SocialGroup => String::from_str("social.group"),
            NotificationV2Category::Other(other) => other.clone(),
        }
    }
}

/// `from` is specified by its own `ensures`, over the view of the `String`.
impl vstd::std_specs::convert::FromSpecImpl<NotificationV2Category> for String {
    open spec fn obeys_from_spec() -> bool {
        false
    }

    open spec fn from_spec(v: NotificationV2Category) -> String {
        choose|r: String| r@ == category_text(v@)
    }
}

/// Reading any text as a [`NotificationV2Category`] and writing it back gives the same text.
pub proof fn lemma_category_text_round_trip(s: Seq<char>)
    ensures
        category_text(category_from_text(s)) == s,
{
    reveal_strlit("social.group");
}

/// Writing a [`NotificationV2Category`] as text and reading it back gives the same value, unless it
/// is an `Other` whose text names one of the other variants.
pub proof fn lemma_category_value_round_trip(v: SpecNotificationV2Category)
    requires
        !(v matches SpecNotificationV2Category::Other(s) && is_category_name(s)),
    ensures
        category_from_text(category_text(v)) == v,
{
    reveal_strlit("social.group");
}

} // verus!
