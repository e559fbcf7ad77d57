//! Authenticators that try several authentication methods in sequence.
//!
//! The methods themselves run asynchronously outside this crate; the
//! composites hold them in order and decide, from each answer, whether to
//! ask the next one or to stop (see `crate::authn`).

use vstd::prelude::*;

use crate::authn::{chain_next, chain_next_spec, chain_start, chain_start_spec, Attempt, ChainStep};

verus! {

/// Tries several authenticators in sequence.
///
/// Policy: the first successful authentication wins, `NotPresent` falls
/// through to the next authenticator, and any error stops the chain.
#[derive(Clone)]
pub struct CompositeAuthenticator<A> {
    authenticators: Vec<A>,
}

impl<A> CompositeAuthenticator<A> {
    /// The authenticators, in the order they are tried.
    pub closed spec fn members(&self) -> Seq<A> {
        self.authenticators@
    }

    /// A composite of the given authenticators, tried in this order.
    pub fn new(authenticators: Vec<A>) -> (r: Self)
        ensures
            r.members() == authenticators@,
    {
        CompositeAuthenticator { authenticators }
    }

    /// Whether no authenticator is configured.
    pub fn is_empty(&self) -> (r: bool)
        ensures
            r == (self.members().len() == 0),
    {
        self.authenticators.len() == 0
    }

    /// Number of authenticators.
    pub fn len(&self) -> (n: usize)
        ensures
            n == self.members().len(),
    {
        self.authenticators.len()
    }

    /// The authenticator tried at position `i`.
    pub fn authenticator(&self, i: usize) -> (a: &A)
        requires
            i < self.members().len(),
        ensures
            *a == self.members()[i as int],
    {
        &self.authenticators[i]
    }

    /// How a run of the chain begins.
    pub fn first_step(&self) -> (s: ChainStep)
        ensures
            s == chain_start_spec(self.members().len()),
    {
        chain_start(self.authenticators.len())
    }

    /// What to do after authenticator `i` answered `attempt`.
    pub fn next_step(&self, i: usize, attempt: Attempt) -> (s: ChainStep)
        requires
            i < self.members().len(),
        ensures
            s == chain_next_spec(self.members().len(), i as nat, attempt),
    {
        chain_next(self.authenticators.len(), i, attempt)
    }
}

impl<A> Default for CompositeAuthenticator<A> {
    fn default() -> (r: Self)
        ensures
            r.members().len() == 0,
    {
        CompositeAuthenticator { authenticators: Vec::new() }
    }
}

/// Tries several request authenticators in sequence, with the same policy
/// as `CompositeAuthenticator`.
#[derive(Clone)]
pub struct CompositeRequestAuthenticator<A> {
    authenticators: Vec<A>,
}

impl<A> CompositeRequestAuthenticator<A> {
    /// The authenticators, in the order they are tried.
    pub closed spec fn members(&self) -> Seq<A> {
        self.authenticators@
    }

    /// Creates an empty composite authenticator: the given list is not
    /// taken over, so the composite holds no authenticator.
    pub fn new(_authenticators: Vec<A>) -> (r: Self)
        ensures
            r.members().len() == 0,
    {
        CompositeRequestAuthenticator { authenticators: Vec::new() }
    }

    /// Whether no authenticator is configured.
    pub fn is_empty(&self) -> (r: bool)
        ensures
            r == (self.members().len() == 0),
    {
        self.authenticators.len() == 0
    }

    /// Number of authenticators.
    pub fn len(&self) -> (n: usize)
        ensures
            n == self.members().len(),
    {
        self.authenticators.len()
    }

    /// The authenticator tried at position `i`.
    pub fn authenticator(&self, i: usize) -> (a: &A)
        requires
            i < self.members().len(),
        ensures
            *a == self.members()[i as int],
    {
        &self.authenticators[i]
    }

    /// How a run of the chain begins.
    pub fn first_step(&self) -> (s: ChainStep)
        ensures
            s == chain_start_spec(self.members().len()),
    {
        chain_start(self.authenticators.len())
    }

    /// What to do after authenticator `i` answered `attempt`.
    pub fn next_step(&self, i: usize, attempt: Attempt) -> (s: ChainStep)
        requires
            i < self.members().len(),
        ensures
            s == chain_next_spec(self.members().len(), i as nat, attempt),
    {
        chain_next(self.authenticators.len(), i, attempt)
    }
}

impl<A> Default for CompositeRequestAuthenticator<A> {
    fn default() -> (r: Self)
        ensures
            r.members().len() == 0,
    {
        CompositeRequestAuthenticator { authenticators: Vec::new() }
    }
}

} // verus!
