//! The kind of a refreshed content, and its text form.
use vstd::prelude::*;
use crate::text::str_equals;

verus! {

/// The kind of content that a content refresh is about.
#[derive(Debug, Clone, PartialEq, Eq, PartialOrd, Ord, Hash)]
pub enum Type {
    Gallery,
    Icon,
    Emoji,
    Avatar,
    World,
    Other(String),
}

/// The mathematical value of a [`Type`]: its variant, and the text of `Other`.
pub enum SpecType {
    Gallery,
    Icon,
    Emoji,
    Avatar,
    World,
    Other(Seq<char>),
}

impl View for Type {
    type V = SpecType;

    open spec fn view(&self) -> SpecType {
        match self {
            Type::Gallery => SpecType::Gallery,
            Type::Icon => SpecType::Icon,
            Type::Emoji => SpecType::Emoji,
            Type::Avatar => SpecType::Avatar,
            Type::World => SpecType::World,
            Type::Other(s) => SpecType::Other(s@),
        }
    }
}

/// Whether `s` is the text of one of the named variants of [`Type`].
pub open spec fn is_content_type_name(s: Seq<char>) -> bool {
    s == "gallery"@
    || s == "icon"@
    || s == "emoji"@
    || s == "avatar"@
    || s == "world"@
}

/// The value that a text reads as: the variant named by it, else `Other` with the text.
pub open spec fn content_type_from_text(s: Seq<char>) -> SpecType {
    if s == "gallery"@ {
        SpecType::Gallery
    } else if s == "icon"@ {
        SpecType::Icon
    } else if s == "emoji"@ {
        SpecType::Emoji
    } else if s == "avatar"@ {
        SpecType::Avatar
    } else if s == "world"@ {
        SpecType::World
    } else {
        SpecType::Other(s)
    }
}

/// The text that a value is written as.
pub open spec fn content_type_text(v: SpecType) -> Seq<char> {
    match v {
        SpecType::Gallery => "gallery"@,
        SpecType::Icon => "icon"@,
        SpecType::Emoji => "emoji"@,
        SpecType::Avatar => "avatar"@,
        SpecType::World => "world"@,
        SpecType::Other(s) => s,
    }
}

impl From<&str> for Type {
    /// Reads `value`: the variant that it names, else `Other` holding it.
    fn from(value: &str) -> (res: Self)
        ensures
            res@ == content_type_from_text(value@),
    {
        if str_equals(value, "gallery") {
            Type::Gallery
        } else if str_equals(value, "icon") {
            Type::Icon
        } else if str_equals(value, "emoji") {
            Type::Emoji
        } else if str_equals(value, "avatar") {
            Type::Avatar
        } else if str_equals(value, "world") {
            Type::World
        } else {
            Type::Other(String::from_str(value))
        }
    }
}

/// `from` is specified by its own `ensures`, over the view: a `String` is known to Verus
/// through its view only, so `from_spec` is not claimed to be the exact result.
impl vstd::std_specs::convert::FromSpecImpl<&str> for Type {
    open spec fn obeys_from_spec() -> bool {
        false
    }

    open spec fn from_spec(v: &str) -> Type {
        choose|r: Type| r@ == content_type_from_text(v@)
    }
}

impl From<Type> for String {
    /// Writes `value` as its text.
    fn from(value: Type) -> (res: String)
        ensures
            res@ == content_type_text(value@),
    {
        match value {
            Type::Gallery => String::from_str("gallery"),
            Type::Icon => String::from_str("icon"),
            Type::Emoji => String::from_str("emoji"),
            Type::Avatar => String::from_str("avatar"),
            Type::World => String::from_str("world"),
            Type::Other(other) => other,
        }
    }
}

impl Type {
    /// The text that the value is written as.
    pub fn to_text(&self) -> (res: String)
        ensures
            res@ == content_type_text(self@),
    {
        match self {
            Type::Gallery => String::from_str("gallery"),
            Type::Icon => String::from_str("icon"),
            Type::Emoji => String::from_str("emoji"),
            Type::Avatar => String::from_str("avatar"),
            Type::World => String::from_str("world"),
            Type::Other(other) => other.clone(),
        }
    }
}

/// `from` is specified by its own `ensures`, over the view of the `String`.
impl vstd::std_specs::convert::FromSpecImpl<Type> for String {
    open spec fn obeys_from_spec() -> bool {
        false
    }

    open spec fn from_spec(v: Type) -> String {
        choose|r: String| r@ == content_type_text(v@)
    }
}

/// Reading any text as a [`Type`] and writing it back gives the same text.
pub proof fn lemma_content_type_text_round_trip(s: Seq<char>)
    ensures
        content_type_text(content_type_from_text(s)) == s,
{
    reveal_strlit("gallery");
    reveal_strlit("icon");
    reveal_strlit("emoji");
    reveal_strlit("avatar");
    reveal_strlit("world");
}

/// Writing a [`Type`] as text and reading it back gives the same value, unless it
/// is an `Other` whose text names one of the other variants.
pub proof fn lemma_content_type_value_round_trip(v: SpecType)
    requires
        !(v matches SpecType::Other(s) && is_content_type_name(s)),
    ensures
        content_type_from_text(content_type_text(v)) == v,
{
    reveal_strlit("gallery");
    reveal_strlit("icon");
    reveal_strlit("emoji");
    reveal_strlit("avatar");
    reveal_strlit("world");
    assert("gallery"@.len() != "icon"@.len());
    assert("gallery"@.len() != "emoji"@.len());
    assert("gallery"@.len() != "avatar"@.len());
    assert("gallery"@.len() != "world"@.len());
    assert("icon"@.len() != "emoji"@.len());
    assert("icon"@.len() != "avatar"@.len());
    assert("icon"@.len() != "world"@.len());
    assert("emoji"@.len() != "avatar"@.len());
    assert("emoji"@[0] != "world"@[0]);
    assert("avatar"@.len() != "world"@.len());
}

} // verus!
