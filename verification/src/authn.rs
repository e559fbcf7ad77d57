//! Authentication results and the policy that combines several
//! authentication methods.
//!
//! Authenticators are tried in order: the first one that authenticates the
//! caller wins, one that finds no credentials of its kind passes to the
//! next, and any error stops the chain.

use vstd::prelude::*;

use crate::error::AppError;
use crate::identity::user_id::UserId;

verus! {

/// The identity of an authenticated caller.
#[derive(Debug, Clone, Copy, PartialEq, Eq, Structural)]
pub struct AuthenticatedIdentity {
    pub user_id: UserId,
}

impl AuthenticatedIdentity {
    pub fn new(user_id: UserId) -> (r: AuthenticatedIdentity)
        ensures
            r.user_id == user_id,
    {
        AuthenticatedIdentity { user_id }
    }
}

/// What one authentication method concluded.
#[derive(Debug, Clone, Copy, PartialEq, Eq, Structural)]
pub enum AuthenticationOutcome {
    /// The caller presented valid credentials of this kind.
    Authenticated(AuthenticatedIdentity),
    /// The caller presented no credentials of this kind.
    NotPresent,
}

/// The characters of an optional string.
pub open spec fn opt_view(s: Option<String>) -> Option<Seq<char>> {
    match s {
        Some(t) => Some(t@),
        None => None,
    }
}

/// The credentials a request carries, extracted at the transport edge.
#[derive(Debug, Clone)]
pub struct AuthenticationContext {
    bearer_token: Option<String>,
    session_id: Option<String>,
}

impl AuthenticationContext {
    pub closed spec fn bearer_view(&self) -> Option<Seq<char>> {
        opt_view(self.bearer_token)
    }

    pub closed spec fn session_view(&self) -> Option<Seq<char>> {
        opt_view(self.session_id)
    }

    /// A context holding the given bearer token and session id.
    pub fn new(bearer_token: Option<String>, session_id: Option<String>) -> (r: Self)
        ensures
            r.bearer_view() == opt_view(bearer_token),
            r.session_view() == opt_view(session_id),
    {
        AuthenticationContext { bearer_token, session_id }
    }

    /// The bearer token, if the request carries one.
    pub fn bearer_token(&self) -> (r: Option<&str>)
        ensures
            match self.bearer_view() {
                Some(t) => r matches Some(x) && x@ == t,
                None => r is None,
            },
    {
        match &self.bearer_token {
            Some(t) => Some(t.as_str()),
            None => None,
        }
    }

    /// The session id, if the request carries one.
    pub fn session_id(&self) -> (r: Option<&str>)
        ensures
            match self.session_view() {
                Some(t) => r matches Some(x) && x@ == t,
                None => r is None,
            },
    {
        match &self.session_id {
            Some(t) => Some(t.as_str()),
            None => None,
        }
    }
}

/// The result of one authenticator.
pub type Attempt = Result<AuthenticationOutcome, AppError>;

/// The combined answer of a chain of authenticators whose results, in
/// order, are `attempts`: the first result that is not `NotPresent`, or
/// `NotPresent` when every method found nothing.
pub open spec fn chain_answer(attempts: Seq<Attempt>) -> Attempt
    decreases attempts.len(),
{
    if attempts.len() == 0 {
        Ok(AuthenticationOutcome::NotPresent)
    } else {
        match attempts[0] {
            Ok(AuthenticationOutcome::NotPresent) => chain_answer(attempts.drop_first()),
            other => other,
        }
    }
}

/// What the chain does next.
#[derive(Debug)]
pub enum ChainStep {
    /// Ask the authenticator with this index.
    Ask(usize),
    /// Stop with this answer.
    Finish(Attempt),
}

/// The first step of a chain of `n` authenticators.
pub open spec fn chain_start_spec(n: nat) -> ChainStep {
    if n == 0 {
        ChainStep::Finish(Ok(AuthenticationOutcome::NotPresent))
    } else {
        ChainStep::Ask(0)
    }
}

/// The step after authenticator `i` (of `n`) answered `attempt`.
pub open spec fn chain_next_spec(n: nat, i: nat, attempt: Attempt) -> ChainStep {
    match attempt {
        Ok(AuthenticationOutcome::NotPresent) => if i + 1 < n {
            ChainStep::Ask((i + 1) as usize)
        } else {
            ChainStep::Finish(Ok(AuthenticationOutcome::NotPresent))
        },
        other => ChainStep::Finish(other),
    }
}

/// The first step of a chain of `n` authenticators.
pub fn chain_start(n: usize) -> (s: ChainStep)
    ensures
        s == chain_start_spec(n as nat),
{
    if n == 0 {
        ChainStep::Finish(Ok(AuthenticationOutcome::NotPresent))
    } else {
        ChainStep::Ask(0)
    }
}

/// The step after authenticator `i` of `n` answered `attempt`.
pub fn chain_next(n: usize, i: usize, attempt: Attempt) -> (s: ChainStep)
    requires
        i < n,
    ensures
        s == chain_next_spec(n as nat, i as nat, attempt),
{
    match attempt {
        Ok(AuthenticationOutcome::NotPresent) => {
            if i + 1 < n {
                ChainStep::Ask(i + 1)
            } else {
                ChainStep::Finish(Ok(AuthenticationOutcome::NotPresent))
            }
        },
        other => ChainStep::Finish(other),
    }
}

/// The answer a chain reaches when, from authenticator `i` on, the
/// authenticators answer `attempts[i]`, `attempts[i + 1]`, ...
pub open spec fn run_chain_from(attempts: Seq<Attempt>, i: nat) -> Attempt
    decreases attempts.len() - i,
{
    if i >= attempts.len() {
        Ok(AuthenticationOutcome::NotPresent)
    } else {
        match chain_next_spec(attempts.len(), i, attempts[i as int]) {
            ChainStep::Ask(j) => if j > i {
                run_chain_from(attempts, j as nat)
            } else {
                Ok(AuthenticationOutcome::NotPresent)
            },
            ChainStep::Finish(a) => a,
        }
    }
}

/// The answer of driving a chain with `chain_start` and `chain_next`.
pub open spec fn run_chain(attempts: Seq<Attempt>) -> Attempt {
    match chain_start_spec(attempts.len()) {
        ChainStep::Ask(j) => run_chain_from(attempts, j as nat),
        ChainStep::Finish(a) => a,
    }
}

/// Running the chain step by step gives the first answer that is not
/// `NotPresent` (or `NotPresent` when all authenticators found nothing).
pub proof fn lemma_run_chain_is_first_decisive(attempts: Seq<Attempt>)
    requires
        attempts.len() < usize::MAX,
    ensures
        run_chain(attempts) == chain_answer(attempts),
{
    lemma_run_chain_from(attempts, 0);
    assert(attempts.skip(0) =~= attempts);
}

proof fn lemma_run_chain_from(attempts: Seq<Attempt>, i: nat)
    requires
        i <= attempts.len(),
        attempts.len() < usize::MAX,
    ensures
        run_chain_from(attempts, i) == chain_answer(attempts.skip(i as int)),
    decreases attempts.len() - i,
{
    if i < attempts.len() {
        lemma_run_chain_from(attempts, i + 1);
        assert(attempts.skip(i as int).drop_first() =~= attempts.skip(i as int + 1));
        assert(attempts.skip(i as int)[0] == attempts[i as int]);
        if i + 1 == attempts.len() {
            assert(attempts.skip(i as int + 1).len() == 0);
        }
    } else {
        assert(attempts.skip(i as int).len() == 0);
    }
}

/// The result of one authenticator in the style that reports "no
/// credentials" as `None`.
pub type OptionalAttempt = Result<Option<AuthenticatedIdentity>, AppError>;

/// The same result expressed as an authentication outcome.
pub open spec fn as_attempt(a: OptionalAttempt) -> Attempt {
    match a {
        Ok(Some(id)) => Ok(AuthenticationOutcome::Authenticated(id)),
        Ok(None) => Ok(AuthenticationOutcome::NotPresent),
        Err(e) => Err(e),
    }
}

/// Converts an optional-identity result to an authentication outcome.
pub fn to_attempt(a: OptionalAttempt) -> (r: Attempt)
    ensures
        r == as_attempt(a),
{
    match a {
        Ok(Some(id)) => Ok(AuthenticationOutcome::Authenticated(id)),
        Ok(None) => Ok(AuthenticationOutcome::NotPresent),
        Err(e) => Err(e),
    }
}

/// The optional-identity form of an authentication outcome.
pub open spec fn as_optional(a: Attempt) -> OptionalAttempt {
    match a {
        Ok(AuthenticationOutcome::Authenticated(id)) => Ok(Some(id)),
        Ok(AuthenticationOutcome::NotPresent) => Ok(None),
        Err(e) => Err(e),
    }
}

/// Converts an authentication outcome to the optional-identity form.
pub fn to_optional(a: Attempt) -> (r: OptionalAttempt)
    ensures
        r == as_optional(a),
{
    match a {
        Ok(AuthenticationOutcome::Authenticated(id)) => Ok(Some(id)),
        Ok(AuthenticationOutcome::NotPresent) => Ok(None),
        Err(e) => Err(e),
    }
}

} // verus!
