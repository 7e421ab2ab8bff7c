//! A friend who went offline.
use vstd::prelude::*;

verus! {

/// A friend went offline.
#[derive(Debug, Clone)]
pub struct FriendOffline {
    pub user_id: String,
    pub platform: super::super::platform::Platform,
}

} // verus!
