//! The deletion of notifications.
use vstd::prelude::*;

verus! {

/// Notifications were deleted.
#[derive(Debug, Clone, Ord, PartialOrd, Eq, PartialEq, Hash)]
pub struct NotificationV2Delete {
    ///Notification id
    pub ids: Vec<String>,
    pub version: i32,
}

} // verus!
