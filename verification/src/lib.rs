//! Data model and logic of a relay that tells Discord users what their tracked
//! VRChat friends do.
pub mod relay;
pub mod text;
pub mod vrc;
