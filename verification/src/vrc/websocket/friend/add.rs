//! A new friend.
use vstd::prelude::*;

verus! {

/// A user became a friend.
#[derive(Debug, Clone)]
pub struct FriendAdd {
    pub user_id: String,
    pub user: super::User,
}

} // verus!
