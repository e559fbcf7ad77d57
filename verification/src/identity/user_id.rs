//! User identifier value object: a UUID, held as its 128-bit value.

use vstd::prelude::*;

verus! {

/// Whether the 128-bit value of a UUID carries version 4 and the RFC 4122
/// variant (the bits a randomly generated UUID has fixed).
pub open spec fn is_version4(v: u128) -> bool {
    v & 0x0000_0000_0000_F000_C000_0000_0000_0000u128 == 0x0000_0000_0000_4000_8000_0000_0000_0000u128
}

/// A random version-4 UUID from `uuid::Uuid::new_v4`, as its 128-bit value.
/// The random bits depend on the operating system's generator; the contract
/// records the bits the crate sets: version nibble 4 and RFC 4122 variant.
#[verifier::external_body]
pub(crate) fn uuid_new_v4() -> (v: u128)
    ensures
        is_version4(v),
{
    uuid::Uuid::new_v4().as_u128()
}

/// Uniquely identifies a user.
#[derive(Debug, Clone, Copy, PartialEq, Eq, Hash, Structural)]
pub struct UserId(u128);

impl View for UserId {
    type V = u128;

    closed spec fn view(&self) -> u128 {
        self.0
    }
}

impl UserId {
    /// The identifier with UUID value `uuid`.
    pub closed spec fn from_uuid_spec(uuid: u128) -> UserId {
        UserId(uuid)
    }

    /// An identifier is the one built from its own value.
    pub proof fn lemma_from_own_uuid(id: UserId)
        ensures
            UserId::from_uuid_spec(id@) == id,
    {
    }

    /// Generates a new random identifier (a version-4 UUID).
    pub fn new() -> (id: UserId)
        ensures
            is_version4(id@),
    {
        UserId(uuid_new_v4())
    }

    /// Reconstructs an identifier from an existing UUID value.
    pub fn from_uuid(uuid: u128) -> (id: UserId)
        ensures
            id@ == uuid,
            id == UserId::from_uuid_spec(uuid),
    {
        UserId(uuid)
    }

    /// The underlying UUID value.
    pub fn as_uuid(&self) -> (v: u128)
        ensures
            v == self@,
    {
        self.0
    }
}

impl Default for UserId {
    /// A new random identifier (a version-4 UUID).
    fn default() -> (id: UserId)
        ensures
            is_version4(id@),
    {
        UserId::new()
    }
}

} // verus!
