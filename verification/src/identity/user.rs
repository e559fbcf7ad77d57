//! The user aggregate root.

use vstd::prelude::*;

use crate::identity::email::Email;
use crate::identity::password::PasswordHash;
use crate::identity::permission::Permission;
use crate::identity::role::Role;
use crate::identity::user_id::{is_version4, UserId};
use crate::identity::username::Username;
use crate::time::{utc_now, Timestamp};

verus! {

/// The slugs of a list of permissions.
pub open spec fn slugs_of(perms: Seq<Permission>) -> Set<Seq<char>> {
    Set::new(|s: Seq<char>| exists|i: int| 0 <= i < perms.len() && (#[trigger] perms[i])@ == s)
}

/// No slug occurs twice in the list.
pub open spec fn distinct_slugs(perms: Seq<Permission>) -> bool {
    forall|i: int, j: int|
        0 <= i < perms.len() && 0 <= j < perms.len() && i != j ==> (#[trigger] perms[i])@
            != (#[trigger] perms[j])@
}

/// Whether `perms` holds a permission with slug `slug`.
pub fn contains_slug(perms: &Vec<Permission>, slug: &Permission) -> (r: bool)
    ensures
        r == slugs_of(perms@).contains(slug@),
{
    let mut i: usize = 0;
    while i < perms.len()
        invariant
            i <= perms.len(),
            forall|j: int| 0 <= j < i ==> (#[trigger] perms@[j])@ != slug@,
        decreases perms.len() - i,
    {
        if perms[i].same_as(slug) {
            assert(slugs_of(perms@).contains(slug@)) by {
                assert(perms@[i as int]@ == slug@);
            }
            return true;
        }
        i = i + 1;
    }
    false
}

/// The same permissions with duplicate slugs dropped (first one kept).
pub fn dedup_permissions(perms: Vec<Permission>) -> (r: Vec<Permission>)
    ensures
        distinct_slugs(r@),
        slugs_of(r@) == slugs_of(perms@),
{
    let mut r: Vec<Permission> = Vec::new();
    let mut i: usize = 0;
    while i < perms.len()
        invariant
            i <= perms.len(),
            distinct_slugs(r@),
            slugs_of(r@) == slugs_of(perms@.take(i as int)),
        decreases perms.len() - i,
    {
        let p = perms[i].duplicate();
        let ghost pv = perms@[i as int]@;
        let present = contains_slug(&r, &p);
        let ghost old_r = r@;
        if !present {
            r.push(p);
            assert forall|sl: Seq<char>| slugs_of(r@).contains(sl) implies slugs_of(
                old_r,
            ).insert(pv).contains(sl) by {
                let k = choose|k: int| 0 <= k < r@.len() && (#[trigger] r@[k])@ == sl;
                if k < old_r.len() {
                    assert(old_r[k] == r@[k]);
                }
            }
            assert forall|sl: Seq<char>| slugs_of(old_r).insert(pv).contains(sl) implies slugs_of(
                r@,
            ).contains(sl) by {
                if sl == pv {
                    assert(r@[old_r.len() as int]@ == pv);
                } else {
                    let k = choose|k: int| 0 <= k < old_r.len() && (#[trigger] old_r[k])@ == sl;
                    assert(r@[k] == old_r[k]);
                }
            }
            assert(slugs_of(r@) =~= slugs_of(old_r).insert(pv));
        }
        assert(slugs_of(perms@.take(i + 1)) =~= slugs_of(perms@.take(i as int)).insert(pv)) by {
            let a = perms@.take(i + 1);
            let b = perms@.take(i as int);
            assert(a[i as int] == perms@[i as int]);
            assert forall|sl: Seq<char>| slugs_of(a).contains(sl) implies slugs_of(b).insert(
                pv,
            ).contains(sl) by {
                let k = choose|k: int| 0 <= k < a.len() && (#[trigger] a[k])@ == sl;
                if k < i {
                    assert(b[k] == a[k]);
                }
            }
            assert forall|sl: Seq<char>| slugs_of(b).insert(pv).contains(sl) implies slugs_of(
                a,
            ).contains(sl) by {
                if sl != pv {
                    let k = choose|k: int| 0 <= k < b.len() && (#[trigger] b[k])@ == sl;
                    assert(a[k] == b[k]);
                }
            }
        }
        i = i + 1;
    }
    assert(perms@.take(perms.len() as int) =~= perms@);
    r
}

/// The central entity representing an individual with an account.
///
/// `permissions` is the flattened set of rights granted through the user's
/// roles: no slug appears twice.
pub struct User {
    pub id: UserId,
    pub username: Username,
    pub email: Email,
    pub password_hash: PasswordHash,
    pub created_at: Timestamp,
    pub updated_at: Timestamp,
    pub roles: Vec<Role>,
    pub permissions: Vec<Permission>,
}

impl User {
    /// The aggregate's invariant: the permission list is a set.
    pub open spec fn wf(&self) -> bool {
        distinct_slugs(self.permissions@)
    }

    /// The set of permission slugs the user holds.
    pub open spec fn permission_slugs(&self) -> Set<Seq<char>> {
        slugs_of(self.permissions@)
    }

    /// A brand-new account created at `now`: a fresh random version-4 id,
    /// both timestamps set to `now`, and no roles or permissions.
    pub fn create_at(username: Username, email: Email, password_hash: PasswordHash, now: Timestamp) -> (u: User)
        ensures
            u.wf(),
            is_version4(u.id@),
            u.username == username,
            u.email == email,
            u.password_hash == password_hash,
            u.created_at == now,
            u.updated_at == now,
            u.roles@.len() == 0,
            u.permissions@.len() == 0,
    {
        User {
            id: UserId::new(),
            username,
            email,
            password_hash,
            created_at: now,
            updated_at: now,
            roles: Vec::new(),
            permissions: Vec::new(),
        }
    }

    /// A brand-new account created now (the clock's reading, see `create_at`).
    pub fn create(username: Username, email: Email, password_hash: PasswordHash) -> (u: User)
        ensures
            u.wf(),
            is_version4(u.id@),
            u.username == username,
            u.email == email,
            u.password_hash == password_hash,
            u.created_at == u.updated_at,
            0 <= u.created_at.secs,
            u.roles@.len() == 0,
            u.permissions@.len() == 0,
    {
        User::create_at(username, email, password_hash, utc_now())
    }

    /// Reconstructs a user from persisted state; duplicate permission slugs
    /// collapse into one.
    pub fn restore(
        id: UserId,
        username: Username,
        email: Email,
        password_hash: PasswordHash,
        roles: Vec<Role>,
        permissions: Vec<Permission>,
        created_at: Timestamp,
        updated_at: Timestamp,
    ) -> (u: User)
        ensures
            u.wf(),
            u.id == id,
            u.username == username,
            u.email == email,
            u.password_hash == password_hash,
            u.roles == roles,
            u.permission_slugs() == slugs_of(permissions@),
            u.created_at == created_at,
            u.updated_at == updated_at,
    {
        User {
            id,
            username,
            email,
            password_hash,
            roles,
            permissions: dedup_permissions(permissions),
            created_at,
            updated_at,
        }
    }

    /// Whether the user holds the permission with this slug.
    pub fn has_permission(&self, slug: &str) -> (r: bool)
        ensures
            r == self.permission_slugs().contains(slug@),
    {
        contains_slug(&self.permissions, &Permission::new(slug))
    }

    /// Whether the user has a role with this id.
    pub fn has_role(&self, role_id: &str) -> (r: bool)
        ensures
            r == exists|i: int| 0 <= i < self.roles@.len() && (#[trigger] self.roles@[i]).id@
                == role_id@,
    {
        let wanted = role_id.to_owned();
        let mut i: usize = 0;
        while i < self.roles.len()
            invariant
                i <= self.roles.len(),
                wanted@ == role_id@,
                forall|j: int| 0 <= j < i ==> (#[trigger] self.roles@[j]).id@ != role_id@,
            decreases self.roles.len() - i,
        {
            if self.roles[i].id == wanted {
                return true;
            }
            i = i + 1;
        }
        false
    }

    /// Replaces the email address; the update time becomes `now`.
    pub fn change_email_at(&mut self, new_email: Email, now: Timestamp)
        ensures
            final(self).email == new_email,
            final(self).updated_at == now,
            final(self).id == old(self).id,
            final(self).username == old(self).username,
            final(self).password_hash == old(self).password_hash,
            final(self).created_at == old(self).created_at,
            final(self).roles == old(self).roles,
            final(self).permissions == old(self).permissions,
    {
        self.email = new_email;
        self.updated_at = now;
    }

    /// Replaces the email address and refreshes the update time to now (the
    /// clock's reading, see `change_email_at`).
    pub fn change_email(&mut self, new_email: Email)
        ensures
            final(self).email == new_email,
            final(self).id == old(self).id,
            final(self).username == old(self).username,
            final(self).password_hash == old(self).password_hash,
            final(self).created_at == old(self).created_at,
            final(self).roles == old(self).roles,
            final(self).permissions == old(self).permissions,
    {
        self.change_email_at(new_email, utc_now());
    }

    /// Replaces the password hash; the update time becomes `now`.
    pub fn change_password_at(&mut self, new_hash: PasswordHash, now: Timestamp)
        ensures
            final(self).password_hash == new_hash,
            final(self).updated_at == now,
            final(self).id == old(self).id,
            final(self).username == old(self).username,
            final(self).email == old(self).email,
            final(self).created_at == old(self).created_at,
            final(self).roles == old(self).roles,
            final(self).permissions == old(self).permissions,
    {
        self.password_hash = new_hash;
        self.updated_at = now;
    }

    /// Replaces the password hash and refreshes the update time to now (the
    /// clock's reading, see `change_password_at`).
    pub fn change_password(&mut self, new_hash: PasswordHash)
        ensures
            final(self).password_hash == new_hash,
            final(self).id == old(self).id,
            final(self).username == old(self).username,
            final(self).email == old(self).email,
            final(self).created_at == old(self).created_at,
            final(self).roles == old(self).roles,
            final(self).permissions == old(self).permissions,
    {
        self.change_password_at(new_hash, utc_now());
    }
}

} // verus!
