//! A refresh of some content of the user.
use vstd::prelude::*;

pub mod action_type;
pub mod content_type;

verus! {

/// Some content of the user was created or deleted.
#[derive(Debug, Clone)]
pub struct ContentRefresh {
    pub content_type: content_type::Type,
    pub action_type: action_type::ActionType,
}

} // verus!
