//! Role value object: a named group of permissions such as `admin`.

use vstd::prelude::*;

use crate::text::push_str;

verus! {

/// A user role.
#[derive(Clone, PartialEq, Eq)]
pub struct Role {
    /// The programmatic identifier (e.g. `"admin"`).
    pub id: String,
    /// The human-readable display name (e.g. `"Administrator"`).
    pub name: String,
}

impl Role {
    /// Constructs a role.
    pub fn new(id: &str, name: &str) -> (r: Role)
        ensures
            r.id@ == id@,
            r.name@ == name@,
    {
        Role { id: id.to_owned(), name: name.to_owned() }
    }

    /// The `Debug` rendering: `Role(<id>: <name>)`.
    pub fn debug_text(&self) -> (text: String)
        ensures
            text@ == "Role("@ + self.id@ + ": "@ + self.name@ + ")"@,
    {
        let mut text = String::new();
        push_str(&mut text, "Role(");
        push_str(&mut text, self.id.as_str());
        push_str(&mut text, ": ");
        push_str(&mut text, self.name.as_str());
        push_str(&mut text, ")");
        text
    }
}

} // verus!
