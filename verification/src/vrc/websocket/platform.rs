//! The platform a user is on, and its text form.
use vstd::prelude::*;
use crate::text::str_equals;

verus! {

/// The platform that a user is on.
#[derive(Debug, Clone, PartialEq, Eq, PartialOrd, Ord, Hash)]
pub enum Platform {
    StandaloneWindows,
    Android,
    Web,
    Null,
    Other(String),
}

/// The mathematical value of a [`Platform`]: its variant, and the text of `Other`.
pub enum SpecPlatform {
    StandaloneWindows,
    Android,
    Web,
    Null,
    Other(Seq<char>),
}

impl View for Platform {
    type V = SpecPlatform;

    open spec fn view(&self) -> SpecPlatform {
        match self {
            Platform::StandaloneWindows => SpecPlatform::StandaloneWindows,
            Platform::Android => SpecPlatform::Android,
            Platform::Web => SpecPlatform::Web,
            Platform::Null => SpecPlatform::Null,
            Platform::Other(s) => SpecPlatform::Other(s@),
        }
    }
}

/// Whether `s` is the text of one of the named variants of [`Platform`].
pub open spec fn is_platform_name(s: Seq<char>) -> bool {
    s == "standalonewindows"@
    || s == "android"@
    || s == "web"@
    || s == ""@
}

/// The value that a text reads as: the variant named by it, else `Other` with the text.
pub open spec fn platform_from_text(s: Seq<char>) -> SpecPlatform {
    if s == "standalonewindows"@ {
        SpecPlatform::StandaloneWindows
    } else if s == "android"@ {
        SpecPlatform::Android
    } else if s == "web"@ {
        SpecPlatform::Web
    } else if s == ""@ {
        SpecPlatform::Null
    } else {
        SpecPlatform::Other(s)
    }
}

/// The text that a value is written as.
pub open spec fn platform_text(v: SpecPlatform) -> Seq<char> {
    match v {
        SpecPlatform::StandaloneWindows => "standalonewindows"@,
        SpecPlatform::Android => "android"@,
        SpecPlatform::Web => "web"@,
        SpecPlatform::Null => ""@,
        SpecPlatform::Other(s) => s,
    }
}

impl From<&str> for Platform {
    /// Reads `value`: the variant that it names, else `Other` holding it.
    fn from(value: &str) -> (res: Self)
        ensures
            res@ == platform_from_text(value@),
    {
        if str_equals(value, "standalonewindows") {
            Platform::StandaloneWindows
        } else if str_equals(value, "android") {
            Platform::Android
        } else if str_equals(value, "web") {
            Platform::Web
        } else if str_equals(value, "") {
            Platform::Null
        } else {
            Platform::Other(String::from_str(value))
        }
    }
}

/// `from` is specified by its own `ensures`, over the view: a `String` is known to Verus
/// through its view only, so `from_spec` is not claimed to be the exact result.
impl vstd::std_specs::convert::FromSpecImpl<&str> for Platform {
    open spec fn obeys_from_spec() -> bool {
        false
    }

    open spec fn from_spec(v: &str) -> Platform {
        choose|r: Platform| r@ == platform_from_text(v@)
    }
}

impl From<Platform> for String {
    /// Writes `value` as its text.
    fn from(value: Platform) -> (res: String)
        ensures
            res@ == platform_text(value@),
    {
        match value {
            Platform::StandaloneWindows => String::from_str("standalonewindows"),
            Platform::Android => String::from_str("android"),
            Platform::Web => String::from_str("web"),
            Platform::Null => String::from_str(""),
            Platform::Other(other) => other,
        }
    }
}

impl Platform {
    /// The text that the value is written as.
    pub fn to_text(&self) -> (res: String)
        ensures
            res@ == platform_text(self@),
    {
        match self {
            Platform::StandaloneWindows => String::from_str("standalonewindows"),
            Platform::Android => String::from_str("android"),
            Platform::Web => String::from_str("web"),
            Platform::Null => String::from_str(""),
            Platform::Other(other) => other.clone(),
        }
    }
}

/// `from` is specified by its own `ensures`, over the view of the `String`.
impl vstd::std_specs::convert::FromSpecImpl<Platform> for String {
    open spec fn obeys_from_spec() -> bool {
        false
    }

    open spec fn from_spec(v: Platform) -> String {
        choose|r: String| r@ == platform_text(v@)
    }
}

impl<'a> From<&'a Platform> for &'a str {
    /// The text of `value`, borrowed from it when it is `Other`.
    fn from(value: &'a Platform) -> (res: &'a str)
        ensures
            res@ == platform_text(value@),
    {
        match value {
            Platform::StandaloneWindows => "standalonewindows",
            Platform::Android => "android",
            Platform::Web => "web",
            Platform::Null => "",
            Platform::Other(other) => other.as_str(),
        }
    }
}

/// `from` is specified by its own `ensures`, over the view of the text.
impl<'a> vstd::std_specs::convert::FromSpecImpl<&'a Platform> for &'a str {
    open spec fn obeys_from_spec() -> bool {
        false
    }

    open spec fn from_spec(v: &'a Platform) -> &'a str {
        choose|r: &'a str| r@ == platform_text(v@)
    }
}

impl Platform {
    /// The text of the platform, as `Display` writes it.
    pub fn to_string(&self) -> (res: String)
        ensures
            res@ == platform_text(self@),
    {
        let text: &str = <&str as From<&Platform>>::from(self);
        String::from_str(text)
    }
}

/// Reading any text as a [`Platform`] and writing it back gives the same text.
pub proof fn lemma_platform_text_round_trip(s: Seq<char>)
    ensures
        platform_text(platform_from_text(s)) == s,
{
    reveal_strlit("standalonewindows");
    reveal_strlit("android");
    reveal_strlit("web");
    reveal_strlit("");
}

/// Writing a [`Platform`] as text and reading it back gives the same value, unless it
/// is an `Other` whose text names one of the other variants.
pub proof fn lemma_platform_value_round_trip(v: SpecPlatform)
    requires
        !(v matches SpecPlatform::Other(s) && is_platform_name(s)),
    ensures
        platform_from_text(platform_text(v)) == v,
{
    reveal_strlit("standalonewindows");
    reveal_strlit("android");
    reveal_strlit("web");
    reveal_strlit("");
    assert("standalonewindows"@.len() != "android"@.len());
    assert("standalonewindows"@.len() != "web"@.len());
    assert("standalonewindows"@.len() != ""@.len());
    assert("android"@.len() != "web"@.len());
    assert("android"@.len() != ""@.len());
    assert("web"@.len() != ""@.len());
}

} // verus!
