//! Where a user is, and its text form.
use vstd::prelude::*;
use crate::text::str_equals;

verus! {

/// Where a user is, as VRChat writes it.
#[derive(Debug, Clone, PartialEq, Eq, PartialOrd, Ord, Hash)]
pub enum Location {
    Offline,
    Traveling,
    Private,
    Null,
    /// should be a world id (or maybe an undocumented variant)
    Other(String),
}

/// The mathematical value of a [`Location`]: its variant, and the text of `Other`.
pub enum SpecLocation {
    Offline,
    Traveling,
    Private,
    Null,
    Other(Seq<char>),
}

impl View for Location {
    type V = SpecLocation;

    open spec fn view(&self) -> SpecLocation {
        match self {
            Location::Offline => SpecLocation::Offline,
            Location::Traveling => SpecLocation::Traveling,
            Location::Private => SpecLocation::Private,
            Location::Null => SpecLocation::Null,
            Location::Other(s) => SpecLocation::Other(s@),
        }
    }
}

/// Whether `s` is the text of one of the named variants of [`Location`].
pub open spec fn is_location_name(s: Seq<char>) -> bool {
    s == "offline"@
    || s == "traveling"@
    || s == "private"@
    || s == ""@
}

/// The value that a text reads as: the variant named by it, else `Other` with the text.
pub open spec fn location_from_text(s: Seq<char>) -> SpecLocation {
    if s == "offline"@ {
        SpecLocation::Offline
    } else if s == "traveling"@ {
        SpecLocation::Traveling
    } else if s == "private"@ {
        SpecLocation::Private
    } else if s == ""@ {
        SpecLocation::Null
    } else {
        SpecLocation::Other(s)
    }
}

/// The text that a value is written as.
pub open spec fn location_text(v: SpecLocation) -> Seq<char> {
    match v {
        SpecLocation::Offline => "offline"@,
        SpecLocation::Traveling => "traveling"@,
        SpecLocation::Private => "private"@,
        SpecLocation::Null => ""@,
        SpecLocation::Other(s) => s,
    }
}

impl From<&str> for Location {
    /// Reads `value`: the variant that it names, else `Other` holding it.
    fn from(value: &str) -> (res: Self)
        ensures
            res@ == location_from_text(value@),
    {
        if str_equals(value, "offline") {
            Location::Offline
        } else if str_equals(value, "traveling") {
            Location::Traveling
        } else if str_equals(value, "private") {
            Location::Private
        } else if str_equals(value, "") {
            Location::Null
        } else {
            Location::Other(String::from_str(value))
        }
    }
}

/// `from` is specified by its own `ensures`, over the view: a `String` is known to Verus
/// through its view only, so `from_spec` is not claimed to be the exact result.
impl vstd::std_specs::convert::FromSpecImpl<&str> for Location {
    open spec fn obeys_from_spec() -> bool {
        false
    }

    open spec fn from_spec(v: &str) -> Location {
        choose|r: Location| r@ == location_from_text(v@)
    }
}

impl From<Location> for String {
    /// Writes `value` as its text.
    fn from(value: Location) -> (res: String)
        ensures
            res@ == location_text(value@),
    {
        match value {
            Location::Offline => String::from_str("offline"),
            Location::Traveling => String::from_str("traveling"),
            Location::Private => String::from_str("private"),
            Location::Null => String::from_str(""),
            Location::Other(other) => other,
        }
    }
}

impl Location {
    /// A copy of the location, with the same view.
    pub fn clone_location(&self) -> (res: Self)
        ensures
            res@ == self@,
    {
        match self {
            Location::Offline => Location::Offline,
            Location::Traveling => Location::Traveling,
            Location::Private => Location::Private,
            Location::Null => Location::Null,
            Location::Other(other) => Location::Other(other.clone()),
        }
    }

    /// The text that the value is written as.
    pub fn to_text(&self) -> (res: String)
        ensures
            res@ == location_text(self@),
    {
        match self {
            Location::Offline => String::from_str("offline"),
            Location::Traveling => String::from_str("traveling"),
            Location::Private => String::from_str("private"),
            Location::Null => String::from_str(""),
            Location::Other(other) => other.clone(),
        }
    }
}

/// `from` is specified by its own `ensures`, over the view of the `String`.
impl vstd::std_specs::convert::FromSpecImpl<Location> for String {
    open spec fn obeys_from_spec() -> bool {
        false
    }

    open spec fn from_spec(v: Location) -> String {
        choose|r: String| r@ == location_text(v@)
    }
}

/// Reading any text as a [`Location`] and writing it back gives the same text.
pub proof fn lemma_location_text_round_trip(s: Seq<char>)
    ensures
        location_text(location_from_text(s)) == s,
{
    reveal_strlit("offline");
    reveal_strlit("traveling");
    reveal_strlit("private");
    reveal_strlit("");
}

/// Writing a [`Location`] as text and reading it back gives the same value, unless it
/// is an `Other` whose text names one of the other variants.
pub proof fn lemma_location_value_round_trip(v: SpecLocation)
    requires
        !(v matches SpecLocation::Other(s) && is_location_name(s)),
    ensures
        location_from_text(location_text(v)) == v,
{
    reveal_strlit("offline");
    reveal_strlit("traveling");
    reveal_strlit("private");
    reveal_strlit("");
    assert("offline"@.len() != "traveling"@.len());
    assert("offline"@[0] != "private"@[0]);
    assert("offline"@.len() != ""@.len());
    assert("traveling"@.len() != "private"@.len());
    assert("traveling"@.len() != ""@.len());
    assert("private"@.len() != ""@.len());
}

} // verus!
