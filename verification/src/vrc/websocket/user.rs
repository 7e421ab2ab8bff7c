//! Messages about the user of the connection.
pub mod badge;
pub mod location;
pub mod update;
