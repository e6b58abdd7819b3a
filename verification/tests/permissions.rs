use gated_channel::ids::{GuildId, RoleId, UserId, everyone_role_of};
use gated_channel::perm::{OverrideSubject, default_deny, grant_read};

#[test]
fn default_deny_denies_read_and_allows_nothing() {
    let scope = RoleId { id: 42 };
    let o = default_deny(scope);
    assert_eq!(o.subject, OverrideSubject::Role(scope));
    assert!(o.deny.read);
    assert!(!o.allow.read);
}

#[test]
fn grant_read_allows_exactly_that_user_and_denies_nothing() {
    let member = UserId { id: 7 };
    let o = grant_read(member);
    assert_eq!(o.subject, OverrideSubject::Member(member));
    assert!(o.allow.read);
    assert!(!o.deny.read);
}

#[test]
fn everyone_scope_is_the_role_named_after_the_guild() {
    let guild = GuildId { id: 99 };
    assert_eq!(everyone_role_of(guild), RoleId { id: 99 });
}
