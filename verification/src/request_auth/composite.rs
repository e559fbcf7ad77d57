//! The request authenticator that tries several authentication methods in
//! sequence, for authenticators that report "no credentials" as `None`.

use vstd::prelude::*;

use crate::authn::{
    as_attempt, chain_next, chain_next_spec, chain_start, chain_start_spec, to_attempt, ChainStep,
    OptionalAttempt,
};

verus! {

/// Tries several request authenticators in insertion order and returns the
/// first authenticated identity; `None` falls through, an error stops.
#[derive(Clone)]
pub struct CompositeRequestAuthenticator<A> {
    authenticators: Vec<A>,
}

impl<A> CompositeRequestAuthenticator<A> {
    /// The authenticators, in the order they are tried.
    pub closed spec fn members(&self) -> Seq<A> {
        self.authenticators@
    }

    /// An empty composite.
    pub fn new() -> (r: Self)
        ensures
            r.members().len() == 0,
    {
        CompositeRequestAuthenticator { authenticators: Vec::new() }
    }

    /// A composite of a pre-built list.
    pub fn with_authenticators(authenticators: Vec<A>) -> (r: Self)
        ensures
            r.members() == authenticators@,
    {
        CompositeRequestAuthenticator { authenticators }
    }

    /// Appends an authenticator; it is tried after all earlier ones.
    pub fn push(self, authenticator: A) -> (r: Self)
        ensures
            r.members() == self.members().push(authenticator),
    {
        let mut s = self;
        s.authenticators.push(authenticator);
        s
    }

    /// Whether no authenticator is configured.
    pub fn is_empty(&self) -> (r: bool)
        ensures
            r == (self.members().len() == 0),
    {
        self.authenticators.len() == 0
    }

    /// Number of authenticators.
    pub fn len(&self) -> (n: usize)
        ensures
            n == self.members().len(),
    {
        self.authenticators.len()
    }

    /// The authenticator tried at position `i`.
    pub fn authenticator(&self, i: usize) -> (a: &A)
        requires
            i < self.members().len(),
        ensures
            *a == self.members()[i as int],
    {
        &self.authenticators[i]
    }

    /// How a run of the chain begins.
    pub fn first_step(&self) -> (s: ChainStep)
        ensures
            s == chain_start_spec(self.members().len()),
    {
        chain_start(self.authenticators.len())
    }

    /// What to do after authenticator `i` answered `attempt`.
    pub fn next_step(&self, i: usize, attempt: OptionalAttempt) -> (s: ChainStep)
        requires
            i < self.members().len(),
        ensures
            s == chain_next_spec(self.members().len(), i as nat, as_attempt(attempt)),
    {
        chain_next(self.authenticators.len(), i, to_attempt(attempt))
    }
}

impl<A> Default for CompositeRequestAuthenticator<A> {
    fn default() -> (r: Self)
        ensures
            r.members().len() == 0,
    {
        CompositeRequestAuthenticator::new()
    }
}

} // verus!
