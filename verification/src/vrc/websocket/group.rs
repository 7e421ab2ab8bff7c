//! Messages about groups.
use vstd::prelude::*;

verus! {

/// A member of a group as the VRChat API describes it; carried through unchanged.
#[verifier::external_type_specification]
#[verifier::external_body]
pub struct ExGroupMemberLimitedUser(vrchatapi::models::group_member_limited_user::GroupMemberLimitedUser);

/// `Clone::clone` of a group member, derived by the outside crate; nothing is claimed of the copy.
pub assume_specification[ <vrchatapi::models::group_member_limited_user::GroupMemberLimitedUser as Clone>::clone ](_0: &vrchatapi::models::group_member_limited_user::GroupMemberLimitedUser) -> vrchatapi::models::group_member_limited_user::GroupMemberLimitedUser;

/// A role in a group as the VRChat API describes it; carried through unchanged.
#[verifier::external_type_specification]
#[verifier::external_body]
pub struct ExGroupRole(vrchatapi::models::group_role::GroupRole);

/// `Clone::clone` of a group role, derived by the outside crate; nothing is claimed of the copy.
pub assume_specification[ <vrchatapi::models::group_role::GroupRole as Clone>::clone ](_0: &vrchatapi::models::group_role::GroupRole) -> vrchatapi::models::group_role::GroupRole;

/// The user joined a group.
#[derive(Debug, Clone)]
pub struct GroupJoined {
    pub group_id: String,
}

/// The user left a group.
#[derive(Debug, Clone)]
pub struct GroupLeft {
    pub group_id: String,
}

/// The user's membership in a group changed.
#[derive(Debug, Clone)]
pub struct GroupMemberUpdated {
    pub member: vrchatapi::models::group_member_limited_user::GroupMemberLimitedUser,
}

/// A role of the user in a group changed.
#[derive(Debug, Clone)]
pub struct GroupRoleUpdated {
    pub member: vrchatapi::models::group_role::GroupRole,
}

} // verus!
