//! Notifications of the second kind that VRChat sends.
pub mod category;
pub mod delete;
pub mod notification_type;
pub mod resonse_icon;
pub mod response;

