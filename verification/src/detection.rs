//! The rule that every fork-detecting guard follows, and what it implies
//! over many checks.

use vstd::prelude::*;

verus! {

/// A guard that recorded `recorded` and now observes `observed` reports a
/// fork exactly when the two differ. Either way it records `observed`.
pub open spec fn reports_fork(recorded: int, observed: int) -> bool {
    recorded != observed
}

/// What a guard that starts out having recorded `recorded` reports on each
/// of the checks in `observations`, in order.
pub open spec fn reports_over(recorded: int, observations: Seq<int>) -> Seq<bool>
    decreases observations.len(),
{
    if observations.len() == 0 {
        seq![]
    } else {
        seq![reports_fork(recorded, observations[0])] + reports_over(
            observations[0],
            observations.drop_first(),
        )
    }
}

/// The value a guard is checked against at check `i` of `observations`: what
/// it was created with for the first check, else the previous observation.
pub open spec fn previous_observation(recorded: int, observations: Seq<int>, i: int) -> int {
    if i == 0 {
        recorded
    } else {
        observations[i - 1]
    }
}

/// A guard reports no fork when it observes what it was created with.
pub proof fn lemma_no_fork_at_creation(observed: int)
    ensures
        !reports_fork(observed, observed),
{
}

/// A fork is reported once: a guard that recorded one value and observes
/// another reports a fork, and a second check on the same value reports none.
pub proof fn lemma_fork_reported_once(recorded: int, observed: int)
    requires
        recorded != observed,
    ensures
        reports_fork(recorded, observed),
        !reports_fork(observed, observed),
{
}

/// Over any run of checks, check `i` reports a fork exactly when its
/// observation differs from the one before it (for the first check, from
/// what the guard was created with).
pub proof fn lemma_reports_are_changes(recorded: int, observations: Seq<int>)
    ensures
        reports_over(recorded, observations).len() == observations.len(),
        forall|i: int|
            0 <= i < observations.len() ==> #[trigger] reports_over(recorded, observations)[i]
                == (previous_observation(recorded, observations, i) != observations[i]),
    decreases observations.len(),
{
    if observations.len() > 0 {
        let rest = observations.drop_first();
        lemma_reports_are_changes(observations[0], rest);
        assert forall|i: int| 0 <= i < observations.len() implies #[trigger] reports_over(
            recorded,
            observations,
        )[i] == (previous_observation(recorded, observations, i) != observations[i]) by {
            if i > 0 {
                assert(reports_over(recorded, observations)[i] == reports_over(
                    observations[0],
                    rest,
                )[i - 1]);
                assert(rest[i - 1] == observations[i]);
                if i > 1 {
                    assert(rest[i - 2] == observations[i - 1]);
                }
            }
        }
    }
}

/// A guard whose observations never change (the parent of a fork) reports no
/// fork on any check.
pub proof fn lemma_unchanged_process_reports_nothing(recorded: int, observations: Seq<int>)
    requires
        forall|i: int| 0 <= i < observations.len() ==> observations[i] == recorded,
    ensures
        forall|i: int|
            0 <= i < observations.len() ==> !#[trigger] reports_over(recorded, observations)[i],
{
    lemma_reports_are_changes(recorded, observations);
    assert forall|i: int| 0 <= i < observations.len() implies !#[trigger] reports_over(
        recorded,
        observations,
    )[i] by {
        if i > 0 {
            assert(observations[i - 1] == recorded);
        }
    }
}

} // verus!
