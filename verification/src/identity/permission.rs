//! Permission value object: a granular access right such as
//! `"identity.user.read"`.

use vstd::prelude::*;

use crate::text::push_str;

verus! {

/// Slug of the right to read user accounts.
pub const IDENTITY_USER_READ: &'static str = "identity.user.read";

/// Slug of the right to update user accounts.
pub const IDENTITY_USER_UPDATE: &'static str = "identity.user.update";

/// A strongly-typed permission slug.
#[derive(Clone, PartialEq, Eq, Hash)]
pub struct Permission(String);

impl View for Permission {
    type V = Seq<char>;

    closed spec fn view(&self) -> Seq<char> {
        self.0@
    }
}

impl Permission {
    /// Constructs a permission from a raw slug.
    pub fn new(slug: &str) -> (p: Permission)
        ensures
            p@ == slug@,
    {
        Permission(slug.to_owned())
    }

    /// The slug.
    pub fn as_str(&self) -> (s: &str)
        ensures
            s@ == self@,
    {
        self.0.as_str()
    }

    /// The right to read user accounts.
    pub fn identity_user_read() -> (p: Permission)
        ensures
            p@ == "identity.user.read"@,
    {
        Permission::new("identity.user.read")
    }

    /// The right to update user accounts.
    pub fn identity_user_update() -> (p: Permission)
        ensures
            p@ == "identity.user.update"@,
    {
        Permission::new("identity.user.update")
    }

    /// A copy carrying the same slug.
    pub fn duplicate(&self) -> (p: Permission)
        ensures
            p@ == self@,
    {
        Permission(self.0.clone())
    }

    /// Whether two permissions carry the same slug.
    pub fn same_as(&self, other: &Permission) -> (r: bool)
        ensures
            r == (self@ == other@),
    {
        self.0 == other.0
    }

    /// The `Debug` rendering: `Permission(<slug>)`.
    pub fn debug_text(&self) -> (text: String)
        ensures
            text@ == "Permission("@ + self@ + ")"@,
    {
        let mut text = String::new();
        push_str(&mut text, "Permission(");
        push_str(&mut text, self.0.as_str());
        push_str(&mut text, ")");
        text
    }
}

impl AsRef<str> for Permission {
    fn as_ref(&self) -> (s: &str)
        ensures
            s@ == self@,
    {
        self.0.as_str()
    }
}

} // verus!
