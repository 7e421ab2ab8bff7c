//! A response to a notification.
use vstd::prelude::*;

verus! {

/// A response to a notification.
#[derive(Debug, Clone)]
pub struct ResponseNotification {
    pub notification_id: String,
    pub receiver_id: String,
    pub response_id: String,
}

} // verus!
