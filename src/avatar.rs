//! Choosing the avatar a cloned message is sent with

use vstd::prelude::*;

use crate::snowflake::TIMESTAMP_SHIFT_FACTOR;

verus! {

/// Number of default avatars for users without a discriminator
pub const DEFAULT_AVATARS_NEW: u64 = 6;

/// Number of default avatars for users with a discriminator
pub const DEFAULT_AVATARS_LEGACY: u16 = 5;

/// Which avatar to clone the message with
#[derive(Debug, Clone, Copy, PartialEq, Eq, Structural)]
pub enum AvatarChoice {
    /// The author's avatar in the guild
    Guild,
    /// The author's own avatar
    User,
    /// The default avatar of this index
    Default(u64),
}

/// Index of the default avatar of a user
pub open spec fn default_avatar_index_spec(user_id: u64, discriminator: u16) -> u64 {
    if discriminator == 0 {
        ((user_id / TIMESTAMP_SHIFT_FACTOR) % DEFAULT_AVATARS_NEW) as u64
    } else {
        (discriminator % DEFAULT_AVATARS_LEGACY) as u64
    }
}

/// Index of the default avatar of a user: chosen by the creation time in
/// their ID when they have no discriminator, by the discriminator otherwise
pub fn default_avatar_index(user_id: u64, discriminator: u16) -> (r: u64)
    ensures
        r == default_avatar_index_spec(user_id, discriminator),
{
    if discriminator == 0 {
        assert(user_id >> 22u64 == user_id / 4_194_304u64) by (bit_vector);
        (user_id >> 22u64) % DEFAULT_AVATARS_NEW
    } else {
        (discriminator % DEFAULT_AVATARS_LEGACY) as u64
    }
}

/// The avatar to clone with: the guild avatar if the author has one, else
/// their own avatar if they have one, else their default avatar
pub fn choose_avatar(
    has_member_avatar: bool,
    has_user_avatar: bool,
    user_id: u64,
    discriminator: u16,
) -> (r: AvatarChoice)
    ensures
        has_member_avatar ==> r == AvatarChoice::Guild,
        !has_member_avatar && has_user_avatar ==> r == AvatarChoice::User,
        !has_member_avatar && !has_user_avatar ==> r == AvatarChoice::Default(
            default_avatar_index_spec(user_id, discriminator),
        ),
{
    if has_member_avatar {
        AvatarChoice::Guild
    } else if has_user_avatar {
        AvatarChoice::User
    } else {
        AvatarChoice::Default(default_avatar_index(user_id, discriminator))
    }
}

} // verus!
