//! Identifiers for the entities the workflow touches.
//!
//! The chat platform identifies guilds, channels, messages, users and roles
//! by 64-bit snowflake numbers; the core only ever compares them.

use vstd::prelude::*;

verus! {

/// A member of the guild.
#[derive(Clone, Copy, PartialEq, Eq, Structural, Debug, Hash)]
pub struct UserId {
    pub id: u64,
}

/// A role inside a guild; the "everyone" scope is itself a role.
#[derive(Clone, Copy, PartialEq, Eq, Structural, Debug, Hash)]
pub struct RoleId {
    pub id: u64,
}

/// The guild (community) that owns the channels.
#[derive(Clone, Copy, PartialEq, Eq, Structural, Debug, Hash)]
pub struct GuildId {
    pub id: u64,
}

/// A channel inside a guild.
#[derive(Clone, Copy, PartialEq, Eq, Structural, Debug, Hash)]
pub struct ChannelId {
    pub id: u64,
}

/// A message inside a channel.
#[derive(Clone, Copy, PartialEq, Eq, Structural, Debug, Hash)]
pub struct MessageId {
    pub id: u64,
}

/// The "everyone" scope of a guild is the role whose identifier equals the
/// guild's own identifier.
pub open spec fn everyone_role(guild: GuildId) -> RoleId {
    RoleId { id: guild.id }
}

/// Executable counterpart of [`everyone_role`].
pub fn everyone_role_of(guild: GuildId) -> (role: RoleId)
    ensures
        role == everyone_role(guild),
{
    RoleId { id: guild.id }
}

} // verus!
