//! Permission model: allow/deny override values for a role or a member.
//!
//! The lifecycle manages exactly one capability — reading the gated channel —
//! so a permission set records whether it contains that capability. The
//! "deny by default, allow by exception" policy is expressed once here and
//! used by both the provisioner and the access gate.

use vstd::prelude::*;
use crate::ids::{RoleId, UserId};

verus! {

/// A set of channel permissions; the core tracks only read access.
#[derive(Clone, Copy, PartialEq, Eq, Structural, Debug)]
pub struct PermissionSet {
    pub read: bool,
}

impl PermissionSet {
    /// The empty permission set: no capability at all.
    pub fn empty() -> (p: PermissionSet)
        ensures
            !p.read,
    {
        PermissionSet { read: false }
    }

    /// The set holding read access and nothing else.
    pub fn read_access() -> (p: PermissionSet)
        ensures
            p.read,
    {
        PermissionSet { read: true }
    }
}

/// Whom a permission override applies to.
#[derive(Clone, Copy, PartialEq, Eq, Structural, Debug)]
pub enum OverrideSubject {
    Role(RoleId),
    Member(UserId),
}

/// A rule granting or denying capabilities to one subject, overriding the
/// guild's defaults for one channel.
#[derive(Clone, Copy, PartialEq, Eq, Structural, Debug)]
pub struct PermissionOverride {
    pub subject: OverrideSubject,
    pub allow: PermissionSet,
    pub deny: PermissionSet,
}

/// The override withholds read access from its subject.
pub open spec fn denies_read(o: PermissionOverride) -> bool {
    o.deny.read && !o.allow.read
}

/// The override gives `user` read access.
pub open spec fn grants_read_to(o: PermissionOverride, user: UserId) -> bool {
    o.allow.read && !o.deny.read && o.subject == OverrideSubject::Member(user)
}

/// The override denying read access to `scope` and allowing nothing.
pub open spec fn default_deny_spec(scope: RoleId) -> PermissionOverride {
    PermissionOverride {
        subject: OverrideSubject::Role(scope),
        allow: PermissionSet { read: false },
        deny: PermissionSet { read: true },
    }
}

/// The override allowing read access to exactly `user` and denying nothing.
pub open spec fn grant_read_spec(user: UserId) -> PermissionOverride {
    PermissionOverride {
        subject: OverrideSubject::Member(user),
        allow: PermissionSet { read: true },
        deny: PermissionSet { read: false },
    }
}

/// Build the default override for a scope: read access denied, nothing
/// allowed.
pub fn default_deny(scope: RoleId) -> (o: PermissionOverride)
    ensures
        o == default_deny_spec(scope),
        denies_read(o),
{
    PermissionOverride {
        subject: OverrideSubject::Role(scope),
        allow: PermissionSet::empty(),
        deny: PermissionSet::read_access(),
    }
}

/// Build the per-user grant: read access allowed for exactly `user`, nothing
/// denied.
pub fn grant_read(user: UserId) -> (o: PermissionOverride)
    ensures
        o == grant_read_spec(user),
        grants_read_to(o, user),
{
    PermissionOverride {
        subject: OverrideSubject::Member(user),
        allow: PermissionSet::read_access(),
        deny: PermissionSet::empty(),
    }
}

/// The default-deny override withholds read access from its scope and gives
/// read access to no user whatsoever.
pub proof fn lemma_default_deny_reads_nothing(scope: RoleId, user: UserId)
    ensures
        denies_read(default_deny_spec(scope)),
        !grants_read_to(default_deny_spec(scope), user),
{
}

} // verus!
