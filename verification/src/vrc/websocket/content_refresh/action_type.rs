//! What happened to a refreshed content, and its text form.
use vstd::prelude::*;
use crate::text::str_equals;

verus! {

/// What happened to the content.
#[derive(Debug, Clone, PartialEq, Eq, Structural, PartialOrd, Ord, Hash)]
pub enum ActionType {
    Created,
    Deleted,
}

/// The text that an action is written as.
pub open spec fn action_text(a: ActionType) -> Seq<char> {
    match a {
        ActionType::Created => "created"@,
        ActionType::Deleted => "deleted"@,
    }
}

impl<'a> TryFrom<&'a str> for ActionType {
    type Error = &'a str;

    /// Reads `value` as an action; any other text is handed back as the error.
    fn try_from(value: &'a str) -> (res: Result<Self, Self::Error>) {
        if str_equals(value, "created") {
            Ok(ActionType::Created)
        } else if str_equals(value, "deleted") {
            Ok(ActionType::Deleted)
        } else {
            Err(value)
        }
    }
}

impl<'a> vstd::std_specs::convert::TryFromSpecImpl<&'a str> for ActionType {
    open spec fn obeys_try_from_spec() -> bool {
        true
    }

    open spec fn try_from_spec(v: &'a str) -> Result<ActionType, &'a str> {
        if v@ == "created"@ {
            Ok(ActionType::Created)
        } else if v@ == "deleted"@ {
            Ok(ActionType::Deleted)
        } else {
            Err(v)
        }
    }
}

impl From<ActionType> for &'static str {
    /// Writes an action as its text.
    fn from(value: ActionType) -> (res: &'static str) {
        match value {
            ActionType::Created => "created",
            ActionType::Deleted => "deleted",
        }
    }
}

impl vstd::std_specs::convert::FromSpecImpl<ActionType> for &'static str {
    open spec fn obeys_from_spec() -> bool {
        true
    }

    open spec fn from_spec(v: ActionType) -> &'static str {
        match v {
            ActionType::Created => "created",
            ActionType::Deleted => "deleted",
        }
    }
}

/// Writing an action and reading its text back gives the action.
pub proof fn lemma_action_value_round_trip(a: ActionType, s: &str)
    requires
        s@ == action_text(a),
    ensures
        <ActionType as vstd::std_specs::convert::TryFromSpec<&str>>::try_from_spec(s) == Ok::<
            ActionType,
            &str,
        >(a),
{
    reveal_strlit("created");
    reveal_strlit("deleted");
    assert("created"@.len() == "deleted"@.len());
    assert("created"@[0] != "deleted"@[0]);
}

/// A text reads as an action exactly when it is the text of one, and then writing the
/// action gives the text back.
pub proof fn lemma_action_text_round_trip(s: &str)
    ensures
        <ActionType as vstd::std_specs::convert::TryFromSpec<&str>>::try_from_spec(s) matches Ok(
            a,
        ) ==> action_text(a) == s@,
        <ActionType as vstd::std_specs::convert::TryFromSpec<&str>>::try_from_spec(s) is Err <==> (
        s@ != "created"@ && s@ != "deleted"@),
{
}

} // verus!
