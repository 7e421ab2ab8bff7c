//! Messages about friends.
use vstd::prelude::*;

pub mod add;
pub mod location;
pub mod offline;
pub mod online;

pub use vrchatapi::models::User;

verus! {

/// A VRChat user as the VRChat API describes it; carried through unchanged.
#[verifier::external_type_specification]
#[verifier::external_body]
pub struct ExUser(vrchatapi::models::User);

/// `Clone::clone` of a user, derived by the outside crate; nothing is claimed of the copy.
pub assume_specification[ <vrchatapi::models::User as Clone>::clone ](_0: &vrchatapi::models::User) -> vrchatapi::models::User;

} // verus!
