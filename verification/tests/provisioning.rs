use gated_channel::ids::{ChannelId, GuildId, RoleId, UserId};
use gated_channel::perm::{OverrideSubject, default_deny};
use gated_channel::provision::{
    channel_created, plan_channel, ChannelLifecycle, ChannelRequest, ProvisionError,
};

#[test]
fn request_outside_a_guild_is_rejected_without_side_effects() {
    let request = ChannelRequest {
        requested_name: String::from("test"),
        requester: UserId { id: 1 },
        guild: None,
    };
    let r = plan_channel(request);
    assert!(matches!(r, Err(ProvisionError::NotInGuild)));
}

#[test]
fn request_in_a_guild_plans_the_channel_with_default_deny() {
    let request = ChannelRequest {
        requested_name: String::from("movie-night"),
        requester: UserId { id: 1 },
        guild: Some(GuildId { id: 42 }),
    };
    let blueprint = plan_channel(request).unwrap();
    assert_eq!(blueprint.name, "movie-night");
    assert_eq!(blueprint.guild, GuildId { id: 42 });
    assert_eq!(blueprint.overrides.len(), 1);
    let o = blueprint.overrides[0];
    assert_eq!(o, default_deny(RoleId { id: 42 }));
    assert!(o.deny.read);
    assert!(!o.allow.read);
    assert_eq!(o.subject, OverrideSubject::Role(RoleId { id: 42 }));
}

#[test]
fn created_channel_starts_in_provisioning_state() {
    let request = ChannelRequest {
        requested_name: String::from("movie-night"),
        requester: UserId { id: 1 },
        guild: Some(GuildId { id: 42 }),
    };
    let blueprint = plan_channel(request).unwrap();
    let channel = channel_created(blueprint, ChannelId { id: 500 });
    assert_eq!(channel.id, ChannelId { id: 500 });
    assert_eq!(channel.name, "movie-night");
    assert_eq!(channel.owner_scope, GuildId { id: 42 });
    assert_eq!(channel.state, ChannelLifecycle::Provisioning);
}
