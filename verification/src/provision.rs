//! Channel provisioner: plans the creation of the gated channel.
//!
//! Provisioning must happen inside a guild: a request arriving from a
//! direct, non-guild context is rejected with [`ProvisionError::NotInGuild`]
//! before any side effect. A valid request yields a blueprint — the name and
//! the default-deny override set the transport's channel-creation call must
//! apply — so that no code path can create the channel without the
//! default-deny step. The application performs the call and hands the new
//! channel identifier back to [`channel_created`].

use vstd::prelude::*;
use crate::ids::{ChannelId, GuildId, UserId, everyone_role};
use crate::perm::{PermissionOverride, default_deny, default_deny_spec, denies_read, grants_read_to};

verus! {

/// A single command invocation asking for a gated channel. Consumed once by
/// the provisioner.
pub struct ChannelRequest {
    /// The new channel's name, taken verbatim from the command line.
    pub requested_name: String,
    /// Who issued the command.
    pub requester: UserId,
    /// The guild the command arrived from, if it arrived from one at all.
    pub guild: Option<GuildId>,
}

/// A failing network call, as reported by the transport.
#[derive(Debug)]
pub struct TransportError {
    pub message: String,
}

/// Why provisioning failed.
#[derive(Debug)]
pub enum ProvisionError {
    /// The command was issued outside any guild; nothing was created.
    NotInGuild,
    /// The transport's channel-creation call failed.
    Transport(TransportError),
}

/// Everything the transport's channel-creation call must be given: the name
/// and the override set, which always carries the default-deny rule for the
/// guild's "everyone" scope.
pub struct ChannelBlueprint {
    pub name: String,
    pub guild: GuildId,
    pub overrides: Vec<PermissionOverride>,
}

/// Where an access channel stands in its life.
#[derive(Clone, Copy, PartialEq, Eq, Structural, Debug)]
pub enum ChannelLifecycle {
    /// Created, workflow not yet started.
    Provisioning,
    /// The access gate and the closure watcher are running.
    Gating,
    /// The delete call has been issued; its outcome is pending or has failed.
    Closing,
    /// Deleted; no further mutation is permitted.
    Closed,
}

/// The gated channel, owned by the workflow for its whole life.
pub struct AccessChannel {
    pub id: ChannelId,
    pub name: String,
    pub owner_scope: GuildId,
    pub state: ChannelLifecycle,
}

/// Plan the channel creation. Rejects a request from outside a guild with
/// `NotInGuild` — before any side effect — and otherwise returns the
/// blueprint: the requested name, the guild, and exactly one override, the
/// default-deny rule for the guild's "everyone" scope.
pub fn plan_channel(request: ChannelRequest) -> (r: Result<ChannelBlueprint, ProvisionError>)
    ensures
        r is Ok <==> request.guild is Some,
        r is Err ==> r->Err_0 is NotInGuild,
        r is Ok ==> {
            let b = r->Ok_0;
            &&& b.name@ == request.requested_name@
            &&& b.guild == request.guild->0
            &&& b.overrides@ == seq![default_deny_spec(everyone_role(request.guild->0))]
        },
{
    match request.guild {
        None => Err(ProvisionError::NotInGuild),
        Some(guild) => {
            let everyone = crate::ids::everyone_role_of(guild);
            let mut overrides: Vec<PermissionOverride> = Vec::new();
            overrides.push(default_deny(everyone));
            assert(overrides@ =~= seq![default_deny_spec(everyone_role(guild))]);
            Ok(ChannelBlueprint { name: request.requested_name, guild, overrides })
        },
    }
}

/// The override set a planned channel is created with always denies read
/// access to the guild's "everyone" scope, and no override in it gives any
/// user read access: immediately after provisioning nobody can read the
/// channel until the access gate issues an explicit per-user grant.
pub proof fn lemma_provisioned_channel_reads_nobody(guild: GuildId, user: UserId)
    ensures
        denies_read(default_deny_spec(everyone_role(guild))),
        forall|o: PermissionOverride|
            seq![default_deny_spec(everyone_role(guild))].contains(o) ==> !grants_read_to(
                o,
                user,
            ),
{
    assert forall|o: PermissionOverride|
        seq![default_deny_spec(everyone_role(guild))].contains(o) implies !grants_read_to(
        o,
        user,
    ) by {
        assert(o == default_deny_spec(everyone_role(guild)));
    }
}

/// Wrap the identifier the transport handed back for the freshly created
/// channel: the access channel starts in the provisioning state, named and
/// owned as the blueprint said.
pub fn channel_created(blueprint: ChannelBlueprint, id: ChannelId) -> (c: AccessChannel)
    ensures
        c.id == id,
        c.name@ == blueprint.name@,
        c.owner_scope == blueprint.guild,
        c.state is Provisioning,
{
    AccessChannel { id, name: blueprint.name, owner_scope: blueprint.guild, state: ChannelLifecycle::Provisioning }
}

} // verus!
