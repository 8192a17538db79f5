//! Values that scripts hand back to the host, and the outcome of loading them.
use vstd::prelude::*;

verus! {

/// What a script's handler returns: a body to send, or nothing (`Empty`).
pub enum WebResult {
    Body(String),
    Empty,
}

/// The error of one script's loading, if it failed.  `None` stands for a
/// loading task that ended without an outcome (it panicked or was cancelled).
pub open spec fn failure_of<E>(outcome: Option<Result<(), E>>) -> Option<E> {
    match outcome {
        Some(Err(e)) => Some(e),
        _ => None,
    }
}

/// The error of the first script, in order, whose loading failed; tasks that
/// ended without an outcome are passed over.
pub open spec fn first_failure<E>(outcomes: Seq<Option<Result<(), E>>>) -> Option<E>
    decreases outcomes.len(),
{
    if outcomes.len() == 0 {
        None
    } else {
        match first_failure(outcomes.drop_last()) {
            Some(e) => Some(e),
            None => failure_of(outcomes.last()),
        }
    }
}

/// The result of loading all scripts, given the outcome of each loading task
/// in order: the error of the first script that failed to load, else `Ok`.
pub fn scripts_loaded<E>(outcomes: Vec<Option<Result<(), E>>>) -> (res: Result<(), E>)
    ensures
        match first_failure(outcomes@) {
            Some(e) => res == Err::<(), E>(e),
            None => res is Ok,
        },
{
    let ghost all = outcomes@;
    let mut rest = outcomes;
    let mut found: Option<E> = None;
    while rest.len() > 0
        invariant
            first_failure(all) == match first_failure(rest@) {
                Some(e) => Some(e),
                None => found,
            },
        decreases rest@.len(),
    {
        let ghost before = rest@;
        let last = rest.pop().unwrap();
        proof {
            assert(rest@ =~= before.drop_last());
        }
        match last {
            Some(Err(e)) => {
                found = Some(e);
            },
            _ => {},
        }
    }
    match found {
        Some(e) => Err(e),
        None => Ok(()),
    }
}

/// A failed script is reported even when scripts after it loaded, and tasks
/// without an outcome do not hide it.
pub proof fn law_first_failure_reported<E>(
    before: Seq<Option<Result<(), E>>>,
    e: E,
    after: Seq<Option<Result<(), E>>>,
)
    requires
        forall|i: int| 0 <= i < before.len() ==> failure_of(#[trigger] before[i]) is None,
    ensures
        first_failure(before.push(Some(Err(e))) + after) == Some(e),
    decreases after.len(),
{
    if after.len() == 0 {
        assert(before.push(Some(Err(e))) + after =~= before.push(Some(Err(e))));
        assert(before.push(Some(Err(e))).drop_last() =~= before);
        lemma_no_failure(before);
    } else {
        law_first_failure_reported(before, e, after.drop_last());
        assert((before.push(Some(Err(e))) + after).drop_last() =~= before.push(Some(Err(e)))
            + after.drop_last());
    }
}

/// Outcomes none of which is a failure give no failure.
pub proof fn lemma_no_failure<E>(s: Seq<Option<Result<(), E>>>)
    requires
        forall|i: int| 0 <= i < s.len() ==> failure_of(#[trigger] s[i]) is None,
    ensures
        first_failure(s) is None,
    decreases s.len(),
{
    if s.len() > 0 {
        lemma_no_failure(s.drop_last());
        assert(failure_of(s[s.len() - 1]) is None);
    }
}

} // verus!
