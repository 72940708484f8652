//! How the outcomes of the two echo servers combine.

use vstd::prelude::*;

verus! {

/// The outcome of waiting for two tasks in turn: the second's error if it
/// failed, else the first's error if it failed, else success.
pub open spec fn join_outcome_model<T, E>(first: Result<T, E>, second: Result<T, E>) -> Result<(), E> {
    match second {
        Err(e) => Err(e),
        Ok(_) => match first {
            Err(e) => Err(e),
            Ok(_) => Ok(()),
        },
    }
}

/// Combines the outcomes of waiting for the first and then the second task:
/// a later error replaces an earlier one.
pub fn join_outcome<T, E>(first: Result<T, E>, second: Result<T, E>) -> (r: Result<(), E>)
    ensures
        r == join_outcome_model(first, second),
{
    let mut outcome: Result<(), E> = Ok(());
    if let Err(e) = first {
        outcome = Err(e);
    }
    if let Err(e) = second {
        outcome = Err(e);
    }
    outcome
}

} // verus!
