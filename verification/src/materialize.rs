use vstd::prelude::*;

verus! {

/// What the caller that waits for the file writes does next.
#[derive(Debug, Clone, Copy, PartialEq, Eq, Structural)]
pub enum JoinStep {
    /// Wait for the write of the entry at this index.
    Await(usize),
    /// Every write succeeded.
    Done,
    /// The write of the entry at this index failed: report it, and wait for
    /// no other.
    Failed(usize),
}

/// Index of the first failed write, in entry order; `None` where all
/// succeeded. `outcomes[i]` says whether the write of entry `i` succeeded.
pub open spec fn first_failure(outcomes: Seq<bool>) -> Option<int>
    decreases outcomes.len(),
{
    if outcomes.len() == 0 {
        None
    } else {
        match first_failure(outcomes.drop_last()) {
            Some(i) => Some(i),
            None => if outcomes.last() {
                None
            } else {
                Some(outcomes.len() - 1)
            },
        }
    }
}

/// The step that follows the outcome of the write at `index`, of `total`.
pub open spec fn step_after(index: int, total: int, succeeded: bool) -> JoinStep {
    if !succeeded {
        JoinStep::Failed(index as usize)
    } else if index + 1 < total {
        JoinStep::Await((index + 1) as usize)
    } else {
        JoinStep::Done
    }
}

/// The first step, once all `total` writes are started.
pub fn first_step(total: usize) -> (r: JoinStep)
    ensures
        r == (if total == 0 {
            JoinStep::Done
        } else {
            JoinStep::Await(0)
        }),
{
    if total == 0 {
        JoinStep::Done
    } else {
        JoinStep::Await(0)
    }
}

/// The step after the write at `index` has ended: a failure ends the wait at
/// once, a success moves on to the next entry.
pub fn next_step(index: usize, total: usize, succeeded: bool) -> (r: JoinStep)
    requires
        index < total,
    ensures
        r == step_after(index as int, total as int, succeeded),
{
    if !succeeded {
        JoinStep::Failed(index)
    } else if index + 1 < total {
        JoinStep::Await(index + 1)
    } else {
        JoinStep::Done
    }
}

/// Follows the steps over the outcomes of all writes: the index of the write
/// whose failure is reported, or `None`.
pub fn join_outcome(outcomes: &[bool]) -> (r: Option<usize>)
    ensures
        match r {
            Some(i) => first_failure(outcomes@) == Some(i as int),
            None => first_failure(outcomes@).is_none(),
        },
{
    let total = outcomes.len();
    let mut step = first_step(total);
    assert(outcomes@.take(0) =~= Seq::empty());
    loop
        invariant
            total == outcomes@.len(),
            match step {
                JoinStep::Await(i) => i < total && first_failure(outcomes@.take(i as int))
                    .is_none(),
                JoinStep::Done => first_failure(outcomes@).is_none(),
                JoinStep::Failed(i) => first_failure(outcomes@) == Some(i as int),
            },
        decreases
                match step {
                    JoinStep::Await(i) => total - i,
                    _ => 0,
                },
    {
        match step {
            JoinStep::Await(i) => {
                proof {
                    assert(outcomes@.take(i + 1).drop_last() =~= outcomes@.take(i as int));
                    if outcomes@[i as int] {
                        if i + 1 == total {
                            assert(outcomes@.take(i + 1) =~= outcomes@);
                        }
                    } else {
                        lemma_failure_stays_first(outcomes@, i + 1);
                    }
                }
                step = next_step(i, total, outcomes[i]);
            },
            JoinStep::Done => {
                return None;
            },
            JoinStep::Failed(i) => {
                return Some(i);
            },
        }
    }
}

/// A failure among the first `k` outcomes is the first failure of all.
pub proof fn lemma_failure_stays_first(outcomes: Seq<bool>, k: int)
    requires
        0 <= k <= outcomes.len(),
        first_failure(outcomes.take(k)).is_some(),
    ensures
        first_failure(outcomes) == first_failure(outcomes.take(k)),
    decreases outcomes.len() - k,
{
    if k == outcomes.len() {
        assert(outcomes.take(k) =~= outcomes);
    } else {
        assert(outcomes.drop_last().take(k) =~= outcomes.take(k));
        lemma_failure_stays_first(outcomes.drop_last(), k);
    }
}

/// The operation fails exactly when some write failed, and the failure
/// reported is the earliest in entry order.
pub proof fn lemma_first_failure_is_earliest(outcomes: Seq<bool>)
    ensures
        match first_failure(outcomes) {
            Some(i) => 0 <= i < outcomes.len() && !outcomes[i] && forall|j: int|
                0 <= j < i ==> outcomes[j],
            None => forall|j: int| 0 <= j < outcomes.len() ==> outcomes[j],
        },
    decreases outcomes.len(),
{
    if outcomes.len() > 0 {
        lemma_first_failure_is_earliest(outcomes.drop_last());
        assert(forall|j: int|
            0 <= j < outcomes.len() - 1 ==> outcomes.drop_last()[j] == outcomes[j]);
    }
}

} // verus!
