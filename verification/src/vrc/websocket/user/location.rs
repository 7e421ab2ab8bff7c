//! The user moving.
use vstd::prelude::*;

verus! {

/// The logged-in user as the VRChat API describes them; carried through unchanged.
#[verifier::external_type_specification]
#[verifier::external_body]
pub struct ExCurrentUser(vrchatapi::models::current_user::CurrentUser);

/// `Clone::clone` of the logged-in user, derived by the outside crate; nothing is claimed of the copy.
pub assume_specification[ <vrchatapi::models::current_user::CurrentUser as Clone>::clone ](_0: &vrchatapi::models::current_user::CurrentUser) -> vrchatapi::models::current_user::CurrentUser;

/// A world as the VRChat API describes it; carried through unchanged.
#[verifier::external_type_specification]
#[verifier::external_body]
pub struct ExWorld(vrchatapi::models::world::World);

/// `Clone::clone` of a world, derived by the outside crate; nothing is claimed of the copy.
pub assume_specification[ <vrchatapi::models::world::World as Clone>::clone ](_0: &vrchatapi::models::world::World) -> vrchatapi::models::world::World;

/// The user moved.
#[derive(Debug, Clone)]
pub struct UserLocation {
    pub user_id: String,
    pub user: vrchatapi::models::current_user::CurrentUser,
    pub location: super::super::location::Location,
    /// This is location without the World ID part.
    pub instance: String,
    pub world_id: String,
    pub world: vrchatapi::models::world::World,
}

} // verus!
