//! A friend who moved.
use vstd::prelude::*;

verus! {

/// A friend moved.
#[derive(Debug, Clone)]
pub struct FriendLocation {
    pub user_id: String,
    pub location: super::super::location::Location,
    /// normally empty "", but when the above "location" is "traveling", this contains the imminent destination
    pub traveling_to_location: super::super::location::Location,
    pub world_id: String,
    pub can_request_invite: bool,
    pub user: super::User,
}

} // verus!
