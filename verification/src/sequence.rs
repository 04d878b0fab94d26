//! Running a list of steps in order, stopping at the first failure.
//!
//! Every multi-step operation of the tool (the suites of `run --suite all`,
//! the two Cargo runs of `lock sync`, and the packages or fuzz targets that a
//! suite checks one by one) is driven by these functions: [`start`] gives
//! the first action, and [`after_step`] the action that follows a step's
//! outcome.

use vstd::prelude::*;

verus! {

/// What a run of steps does next.
#[derive(Debug, PartialEq, Eq)]
pub enum Next<E> {
    /// Run the step with this index.
    Run(usize),
    /// Stop with this result.
    Finish(Result<(), E>),
}

/// The first action of a run of `total` steps: the first step, or success
/// when there is none.
pub open spec fn start_of<E>(total: nat) -> Next<E> {
    if total == 0 {
        Next::Finish(Ok(()))
    } else {
        Next::Run(0)
    }
}

/// The action after step `index` of `total` ended with `outcome`: a failed
/// step ends the run with its error; a successful one is followed by the
/// next step, or by success after the last.
pub open spec fn next_of<E>(total: nat, index: nat, outcome: Result<(), E>) -> Next<E> {
    match outcome {
        Err(e) => Next::Finish(Err(e)),
        Ok(()) => if index + 1 < total {
            Next::Run((index + 1) as usize)
        } else {
            Next::Finish(Ok(()))
        },
    }
}

/// Returns the first action of a run of `total` steps.
pub fn start<E>(total: usize) -> (r: Next<E>)
    ensures
        r == start_of::<E>(total as nat),
{
    if total == 0 {
        Next::Finish(Ok(()))
    } else {
        Next::Run(0)
    }
}

/// Returns the action after step `index` of `total` ended with `outcome`.
pub fn after_step<E>(total: usize, index: usize, outcome: Result<(), E>) -> (r: Next<E>)
    requires
        index < total,
    ensures
        r == next_of(total as nat, index as nat, outcome),
{
    match outcome {
        Err(e) => Next::Finish(Err(e)),
        Ok(()) => {
            if index + 1 < total {
                Next::Run(index + 1)
            } else {
                Next::Finish(Ok(()))
            }
        },
    }
}

/// Where a run whose steps give `outcomes` ends when it reaches step `i`:
/// the number of steps it has run and its result, following [`next_of`].
pub open spec fn run_from<E>(outcomes: Seq<Result<(), E>>, i: nat) -> (nat, Result<(), E>)
    decreases outcomes.len() - i,
{
    if i >= outcomes.len() {
        (i, Ok(()))
    } else {
        match next_of(outcomes.len(), i, outcomes[i as int]) {
            Next::Finish(r) => (i + 1, r),
            Next::Run(j) => if i < j <= outcomes.len() {
                run_from(outcomes, j as nat)
            } else {
                (i + 1, Ok(()))
            },
        }
    }
}

/// Where a whole run whose steps give `outcomes` ends, starting from
/// [`start_of`].
pub open spec fn run_of<E>(outcomes: Seq<Result<(), E>>) -> (nat, Result<(), E>) {
    match start_of::<E>(outcomes.len()) {
        Next::Finish(r) => (0, r),
        Next::Run(j) => run_from(outcomes, j as nat),
    }
}

/// Whether step `k` is the first that fails.
pub open spec fn first_failure<E>(outcomes: Seq<Result<(), E>>, k: int) -> bool {
    &&& 0 <= k < outcomes.len()
    &&& outcomes[k] is Err
    &&& forall|m: int| 0 <= m < k ==> #[trigger] outcomes[m] is Ok
}

proof fn lemma_run_from<E>(outcomes: Seq<Result<(), E>>, i: nat)
    requires
        i < outcomes.len(),
        outcomes.len() <= usize::MAX,
    ensures
        (exists|k: int| i <= k && first_failure(outcomes, k)) ==> {
            let k = choose|k: int| i <= k && first_failure(outcomes, k);
            run_from(outcomes, i) == (k as nat + 1, outcomes[k])
        },
        (forall|m: int| i <= m < outcomes.len() ==> #[trigger] outcomes[m] is Ok) ==> run_from(
            outcomes,
            i,
        ) == (outcomes.len(), Ok::<(), E>(())),
    decreases outcomes.len() - i,
{
    if outcomes[i as int] is Err {
        assert forall|k: int| i <= k && first_failure(outcomes, k) implies k == i by {
            if k > i {
                assert(outcomes[i as int] is Ok);
            }
        }
    } else if i + 1 < outcomes.len() {
        lemma_run_from(outcomes, i + 1);
        assert forall|k: int| i <= k && first_failure(outcomes, k) implies i + 1 <= k by {
            if k == i {
                assert(outcomes[i as int] is Err);
            }
        }
        if exists|k: int| i <= k && first_failure(outcomes, k) {
            let k = choose|k: int| i <= k && first_failure(outcomes, k);
            assert(i + 1 <= k && first_failure(outcomes, k));
        }
    } else {
        assert forall|k: int| i <= k && first_failure(outcomes, k) implies false by {
            assert(k == i);
        }
    }
}

/// A run stops at its first failing step, with that step's error, having
/// run no step after it; when no step fails it runs every step and
/// succeeds.
pub proof fn lemma_run_stops_at_first_failure<E>(outcomes: Seq<Result<(), E>>, k: int)
    requires
        outcomes.len() <= usize::MAX,
    ensures
        first_failure(outcomes, k) ==> run_of(outcomes) == (k as nat + 1, outcomes[k]),
        (forall|m: int| 0 <= m < outcomes.len() ==> #[trigger] outcomes[m] is Ok) ==> run_of(
            outcomes,
        ) == (outcomes.len(), Ok::<(), E>(())),
{
    if outcomes.len() > 0 {
        lemma_run_from(outcomes, 0);
        if first_failure(outcomes, k) {
            assert forall|j: int| 0 <= j && first_failure(outcomes, j) implies j == k by {
                if j < k {
                    assert(outcomes[j] is Ok);
                } else if j > k {
                    assert(outcomes[k] is Ok);
                }
            }
            assert(0 <= k && first_failure(outcomes, k));
        }
    } else {
        if first_failure(outcomes, k) {
            assert(false);
        }
    }
}

} // verus!
