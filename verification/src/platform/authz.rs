//! Authorization: principals and permission checks.

use vstd::prelude::*;

use crate::identity::permission::Permission;
use crate::identity::user::{contains_slug, dedup_permissions, distinct_slugs, slugs_of};
use crate::identity::user_id::UserId;

verus! {

/// A flattened permission slug row of a principal query.
#[derive(Debug, Clone)]
pub struct PrincipalPermissionRow {
    pub permission_slug: String,
}

/// Backend-neutral input for assembling a principal.
#[derive(Debug, Clone)]
pub struct PrincipalAssemblyInput {
    pub user_id: u128,
    pub permission_slugs: Vec<String>,
}

/// The slugs of permission rows, in order.
pub open spec fn row_slugs(rows: Seq<PrincipalPermissionRow>) -> Seq<Seq<char>> {
    rows.map_values(|r: PrincipalPermissionRow| r.permission_slug@)
}

/// Maps permission rows into principal assembly input for `user_id`.
pub fn map_permission_rows(user_id: &UserId, permission_rows: Vec<PrincipalPermissionRow>) -> (r: PrincipalAssemblyInput)
    ensures
        r.user_id == user_id@,
        r.permission_slugs@.map_values(|s: String| s@) == row_slugs(permission_rows@),
{
    let mut slugs: Vec<String> = Vec::new();
    let mut i: usize = 0;
    while i < permission_rows.len()
        invariant
            i <= permission_rows.len(),
            slugs@.map_values(|s: String| s@) == row_slugs(permission_rows@.take(i as int)),
        decreases permission_rows.len() - i,
    {
        let ghost before = slugs@;
        slugs.push(permission_rows[i].permission_slug.clone());
        assert(row_slugs(permission_rows@.take(i + 1)) =~= row_slugs(
            permission_rows@.take(i as int),
        ).push(permission_rows@[i as int].permission_slug@));
        assert(slugs@.map_values(|s: String| s@) =~= before.map_values(|s: String| s@).push(
            permission_rows@[i as int].permission_slug@,
        ));
        i = i + 1;
    }
    assert(permission_rows@.take(permission_rows.len() as int) =~= permission_rows@);
    PrincipalAssemblyInput { user_id: user_id.as_uuid(), permission_slugs: slugs }
}

/// An authenticated caller together with the permissions it holds.
#[derive(Clone)]
pub struct Principal {
    user_id: UserId,
    permissions: Vec<Permission>,
}

impl Principal {
    /// The caller's identifier.
    pub closed spec fn id(&self) -> UserId {
        self.user_id
    }

    /// The slugs of the permissions the principal holds.
    pub closed spec fn slugs(&self) -> Set<Seq<char>> {
        slugs_of(self.permissions@)
    }

    /// The principal's permission list holds no slug twice.
    pub closed spec fn wf(&self) -> bool {
        distinct_slugs(self.permissions@)
    }

    /// A principal for `user_id` holding `permissions` (duplicates collapse).
    pub fn new(user_id: UserId, permissions: Vec<Permission>) -> (p: Principal)
        ensures
            p.id() == user_id,
            p.slugs() == slugs_of(permissions@),
            p.wf(),
    {
        Principal { user_id, permissions: dedup_permissions(permissions) }
    }

    /// The caller's identifier.
    pub fn user_id(&self) -> (id: UserId)
        ensures
            id == self.id(),
    {
        self.user_id
    }

    /// Whether the principal holds `permission`.
    pub fn has(&self, permission: &Permission) -> (r: bool)
        ensures
            r == self.slugs().contains(permission@),
    {
        contains_slug(&self.permissions, permission)
    }
}

/// Authorizes by permission presence.
#[derive(Debug, Clone, Default)]
pub struct PermissionAuthorizer;

impl PermissionAuthorizer {
    pub fn new() -> Self {
        PermissionAuthorizer
    }

    /// Whether `principal` holds `permission`.
    pub fn has(&self, principal: &Principal, permission: &Permission) -> (r: bool)
        ensures
            r == principal.slugs().contains(permission@),
    {
        principal.has(permission)
    }
}

} // verus!
