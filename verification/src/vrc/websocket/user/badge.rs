//! Badges given to and taken from the user.
use vstd::prelude::*;

verus! {

/// A badge as the VRChat API describes it; carried through unchanged.
#[verifier::external_type_specification]
#[verifier::external_body]
pub struct ExBadge(vrchatapi::models::badge::Badge);

/// `Clone::clone` of a badge, derived by the outside crate; nothing is claimed of the copy.
pub assume_specification[ <vrchatapi::models::badge::Badge as Clone>::clone ](_0: &vrchatapi::models::badge::Badge) -> vrchatapi::models::badge::Badge;

/// The user was given a badge.
#[derive(Debug, Clone)]
pub struct UserBadgeAssigned {
    pub badge: vrchatapi::models::badge::Badge,
}

/// A badge was taken from the user.
#[derive(Debug, Clone)]
pub struct UserBadgeUnassigned {
    pub badge_id: String,
}

} // verus!
