//! Running counts of outcomes across all completed tasks, and the laws that
//! relate a tally to the stream of results it was built from.

use vstd::prelude::*;

use crate::outcome::Outcome;
use crate::record::ExecutionResult;

verus! {

/// How many entries of `s` equal `o`.
pub open spec fn count_outcome(s: Seq<Outcome>, o: Outcome) -> nat
    decreases s.len(),
{
    if s.len() == 0 {
        0
    } else {
        count_outcome(s.drop_last(), o) + (if s.last() == o {
            1nat
        } else {
            0nat
        })
    }
}

/// The outcomes of a stream of result records, in arrival order.
pub open spec fn outcomes_of(rs: Seq<ExecutionResult>) -> Seq<Outcome> {
    rs.map_values(|r: ExecutionResult| r.outcome)
}

/// The three counters the reporter keeps while draining results.
#[derive(Clone, Copy, Debug, PartialEq, Eq, Structural)]
pub struct Tally {
    pub success: usize,
    pub failed: usize,
    pub errors: usize,
}

/// A tally agrees with a stream of outcomes when each counter equals the
/// number of results of its class.
pub open spec fn tally_matches(t: Tally, s: Seq<Outcome>) -> bool {
    &&& t.success == count_outcome(s, Outcome::Success)
    &&& t.failed == count_outcome(s, Outcome::NonZeroExit)
    &&& t.errors == count_outcome(s, Outcome::SpawnOrWaitError)
}

/// Appending one outcome raises exactly the matching count by one.
pub proof fn lemma_count_push(s: Seq<Outcome>, o: Outcome, x: Outcome)
    ensures
        count_outcome(s.push(x), o) == count_outcome(s, o) + (if x == o {
            1nat
        } else {
            0nat
        }),
{
    assert(s.push(x).drop_last() =~= s);
}

/// Every entry is counted under exactly one class, so the three counts
/// always partition the stream.
pub proof fn lemma_counts_partition(s: Seq<Outcome>)
    ensures
        count_outcome(s, Outcome::Success) + count_outcome(s, Outcome::NonZeroExit) + count_outcome(
            s,
            Outcome::SpawnOrWaitError,
        ) == s.len(),
    decreases s.len(),
{
    if s.len() > 0 {
        lemma_counts_partition(s.drop_last());
    }
}

/// In a stream whose every outcome is `x`, the count of `x` is the whole
/// length and every other count is zero.
pub proof fn lemma_count_uniform(s: Seq<Outcome>, o: Outcome, x: Outcome)
    requires
        forall|i: int| 0 <= i < s.len() ==> s[i] == x,
    ensures
        count_outcome(s, o) == if o == x {
            s.len()
        } else {
            0nat
        },
    decreases s.len(),
{
    if s.len() > 0 {
        lemma_count_uniform(s.drop_last(), o, x);
    }
}

/// The reporter receives one record per dispatched task, so at the end the
/// three counters sum to the number of tasks.
pub proof fn lemma_tally_total(t: Tally, s: Seq<Outcome>)
    requires
        tally_matches(t, s),
    ensures
        t.success + t.failed + t.errors == s.len(),
{
    lemma_counts_partition(s);
}

/// A tally is a function of the outcome stream alone: two runs over the same
/// stream end with identical counts.
pub proof fn lemma_tally_deterministic(t1: Tally, t2: Tally, s: Seq<Outcome>)
    requires
        tally_matches(t1, s),
        tally_matches(t2, s),
    ensures
        t1.success == t2.success,
        t1.failed == t2.failed,
        t1.errors == t2.errors,
{
}

/// When every command exited with code 0, the tally shows only successes.
pub proof fn lemma_all_success(t: Tally, s: Seq<Outcome>)
    requires
        tally_matches(t, s),
        forall|i: int| 0 <= i < s.len() ==> s[i] == Outcome::Success,
    ensures
        t.success == s.len(),
        t.failed == 0,
        t.errors == 0,
{
    lemma_count_uniform(s, Outcome::Success, Outcome::Success);
    lemma_count_uniform(s, Outcome::NonZeroExit, Outcome::Success);
    lemma_count_uniform(s, Outcome::SpawnOrWaitError, Outcome::Success);
}

/// When every command exited with a non-zero code, the tally shows only
/// warnings.
pub proof fn lemma_all_nonzero(t: Tally, s: Seq<Outcome>)
    requires
        tally_matches(t, s),
        forall|i: int| 0 <= i < s.len() ==> s[i] == Outcome::NonZeroExit,
    ensures
        t.success == 0,
        t.failed == s.len(),
        t.errors == 0,
{
    lemma_count_uniform(s, Outcome::Success, Outcome::NonZeroExit);
    lemma_count_uniform(s, Outcome::NonZeroExit, Outcome::NonZeroExit);
    lemma_count_uniform(s, Outcome::SpawnOrWaitError, Outcome::NonZeroExit);
}

/// When no command could be spawned, the tally shows only errors.
pub proof fn lemma_all_spawn_errors(t: Tally, s: Seq<Outcome>)
    requires
        tally_matches(t, s),
        forall|i: int| 0 <= i < s.len() ==> s[i] == Outcome::SpawnOrWaitError,
    ensures
        t.success == 0,
        t.failed == 0,
        t.errors == s.len(),
{
    lemma_count_uniform(s, Outcome::Success, Outcome::SpawnOrWaitError);
    lemma_count_uniform(s, Outcome::NonZeroExit, Outcome::SpawnOrWaitError);
    lemma_count_uniform(s, Outcome::SpawnOrWaitError, Outcome::SpawnOrWaitError);
}

impl Tally {
    /// The empty tally, before any result has arrived.
    pub fn new() -> (t: Tally)
        ensures
            t.success == 0,
            t.failed == 0,
            t.errors == 0,
            tally_matches(t, Seq::<Outcome>::empty()),
    {
        Tally { success: 0, failed: 0, errors: 0 }
    }

    /// The number of results this tally has counted.
    pub open spec fn total(self) -> int {
        self.success + self.failed + self.errors
    }

    /// Count one more result under its class.
    pub fn record(&mut self, o: Outcome)
        requires
            old(self).total() < usize::MAX,
        ensures
            final(self).success == old(self).success + (if o == Outcome::Success {
                1int
            } else {
                0int
            }),
            final(self).failed == old(self).failed + (if o == Outcome::NonZeroExit {
                1int
            } else {
                0int
            }),
            final(self).errors == old(self).errors + (if o == Outcome::SpawnOrWaitError {
                1int
            } else {
                0int
            }),
    {
        match o {
            Outcome::Success => {
                self.success = self.success + 1;
            },
            Outcome::NonZeroExit => {
                self.failed = self.failed + 1;
            },
            Outcome::SpawnOrWaitError => {
                self.errors = self.errors + 1;
            },
        }
    }
}

/// Fold a drained stream of result records into its tally.
pub fn aggregate(results: &Vec<ExecutionResult>) -> (t: Tally)
    ensures
        tally_matches(t, outcomes_of(results@)),
        t.total() == results@.len(),
{
    let mut t = Tally::new();
    let mut i: usize = 0;
    proof {
        assert(outcomes_of(results@).take(0) =~= Seq::<Outcome>::empty());
    }
    while i < results.len()
        invariant
            0 <= i <= results@.len(),
            tally_matches(t, outcomes_of(results@).take(i as int)),
            t.total() == i,
        decreases results@.len() - i,
    {
        let o = results[i].outcome;
        proof {
            lemma_count_push(outcomes_of(results@).take(i as int), Outcome::Success, o);
            lemma_count_push(outcomes_of(results@).take(i as int), Outcome::NonZeroExit, o);
            lemma_count_push(outcomes_of(results@).take(i as int), Outcome::SpawnOrWaitError, o);
            assert(outcomes_of(results@).take(i as int).push(o) =~= outcomes_of(results@).take(
                i as int + 1,
            ));
        }
        t.record(o);
        i = i + 1;
    }
    proof {
        assert(outcomes_of(results@).take(results@.len() as int) =~= outcomes_of(results@));
    }
    t
}

} // verus!
