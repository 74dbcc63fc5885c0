//! Settling a race of attempts: the first success wins; if none succeeds,
//! the last failure is reported; with no attempt at all, a default error.
//!
//! Connecting to a list of addresses, racing IPv6 against IPv4, and
//! accepting on several listeners all settle their outcomes this way.

use vstd::prelude::*;

verus! {

/// Where settling stands after one more outcome.
#[derive(Debug)]
pub enum Settled<T, E> {
    /// The answer is known.
    Decided(Result<T, E>),
    /// Keep waiting; this is the error to report if nothing better comes.
    Pending(E),
}

/// One step: a success decides; a failure becomes the error to report.
pub open spec fn settle_spec<T, E>(outcome: Result<T, E>) -> Settled<T, E> {
    match outcome {
        Ok(t) => Settled::Decided(Ok(t)),
        Err(e) => Settled::Pending(e),
    }
}

/// Take one more outcome into account.
pub fn settle<T, E>(outcome: Result<T, E>) -> (r: Settled<T, E>)
    ensures
        r == settle_spec(outcome),
{
    match outcome {
        Ok(t) => Settled::Decided(Ok(t)),
        Err(e) => Settled::Pending(e),
    }
}

/// The answer after feeding `outcomes` in order to [`settle`], starting with
/// `last` as the error to report, and reporting the pending error once the
/// outcomes run out.
pub open spec fn settle_all<T, E>(last: E, outcomes: Seq<Result<T, E>>) -> Result<T, E>
    decreases outcomes.len(),
{
    if outcomes.len() == 0 {
        Err(last)
    } else {
        match settle_spec(outcomes[0]) {
            Settled::Decided(r) => r,
            Settled::Pending(e) => settle_all(e, outcomes.drop_first()),
        }
    }
}

/// The first success among `outcomes`, if any.
pub open spec fn first_success<T, E>(outcomes: Seq<Result<T, E>>) -> Option<T>
    decreases outcomes.len(),
{
    if outcomes.len() == 0 {
        None
    } else {
        match outcomes[0] {
            Ok(t) => Some(t),
            Err(_) => first_success(outcomes.drop_first()),
        }
    }
}

/// Law: settling a sequence of outcomes yields its first success; if there is
/// none, its last failure; if there are no outcomes, the default error.
pub proof fn lemma_settle_all<T, E>(default: E, outcomes: Seq<Result<T, E>>)
    ensures
        settle_all(default, outcomes) == match first_success(outcomes) {
            Some(t) => Ok(t),
            None => if outcomes.len() == 0 {
                Err::<T, E>(default)
            } else {
                outcomes.last()
            },
        },
    decreases outcomes.len(),
{
    if outcomes.len() > 0 {
        match outcomes[0] {
            Ok(_) => {},
            Err(e) => {
                lemma_settle_all(e, outcomes.drop_first());
                if outcomes.len() > 1 {
                    assert(outcomes.drop_first().last() == outcomes.last());
                }
            },
        }
    }
}

} // verus!
