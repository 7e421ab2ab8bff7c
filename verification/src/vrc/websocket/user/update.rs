//! Changes to the user's profile.
use vstd::prelude::*;

verus! {

/// The status of a user as the VRChat API describes it; carried through unchanged.
#[verifier::external_type_specification]
#[verifier::external_body]
pub struct ExUserStatus(vrchatapi::models::user_status::UserStatus);

/// `Clone::clone` of a user status, derived by the outside crate; nothing is claimed of the copy.
pub assume_specification[ <vrchatapi::models::user_status::UserStatus as Clone>::clone ](_0: &vrchatapi::models::user_status::UserStatus) -> vrchatapi::models::user_status::UserStatus;

/// The profile of the user changed.
#[derive(Debug, Clone)]
pub struct UserUpdate {
    pub user_id: String,
    pub user: UserUpdateUser,
}

/// The profile of the user, as it is after the change.
#[derive(Debug, Clone)]
pub struct UserUpdateUser {
    pub bio: String,
    pub current_avatar: String,
    pub current_avatar_asset_url: String,
    pub current_avatar_image_url: String,
    pub display_name: String,
    pub fallback_avatar: String,
    pub id: String,
    pub profile_pic_override: String,
    pub status: vrchatapi::models::user_status::UserStatus,
    pub status_description: String,
    pub tags: Vec<String>,
    pub user_icon: String,
    pub username: Option<String>,
}

} // verus!
