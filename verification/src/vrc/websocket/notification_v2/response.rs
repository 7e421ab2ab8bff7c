//! A response that can be given to a notification.
use vstd::prelude::*;
use crate::vrc::websocket::notification_v2::{notification_type, resonse_icon};

verus! {

/// A response that can be given to a notification.
#[derive(Debug, Clone, Ord, PartialOrd, Eq, PartialEq, Hash)]
pub struct NotificationV2Response {
    /// The `type` of the response.
    pub notification_type: notification_type::NotificationV2Type,
    pub data: String,
    pub icon: resonse_icon::NotificationV2ResponseIcon,
    pub text: String,
}

} // verus!
