//! Messages sent over the VRChat websocket.
pub mod connection;
pub mod content_refresh;
pub mod friend;
pub mod group;
pub mod instance_queue;
pub mod location;
pub mod notification_v2;
pub mod platform;
pub mod response_notification;
pub mod user;
