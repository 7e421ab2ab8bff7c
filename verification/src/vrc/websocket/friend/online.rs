//! A friend who came online.
use vstd::prelude::*;

verus! {

/// A friend came online.
#[derive(Debug, Clone)]
pub struct FriendOnline {
    pub user_id: String,
    pub platform: super::super::platform::Platform,
    pub location: super::super::location::Location,
    pub can_request_invite: bool,
    pub user: super::User,
}

} // verus!
