//! The two lines the tool composes itself: the announcement printed after
//! dispatch, and the final summary of the tally.

use vstd::prelude::*;

use crate::numfmt::{dec_str, usize_to_string};
use crate::outcome::Outcome;
use crate::tally::{
    lemma_all_nonzero, lemma_all_spawn_errors, lemma_all_success, tally_matches, Tally,
};

verus! {

/// The arguments joined by single spaces, in order.
pub open spec fn joined(args: Seq<Seq<char>>) -> Seq<char>
    decreases args.len(),
{
    if args.len() == 0 {
        Seq::<char>::empty()
    } else if args.len() == 1 {
        args[0]
    } else {
        joined(args.drop_last()) + seq![' '] + args.last()
    }
}

/// The views of a list of argument strings.
pub open spec fn views_of(args: Seq<String>) -> Seq<Seq<char>> {
    args.map_values(|a: String| a@)
}

/// The announcement line: the command with its arguments, and how many
/// repositories it was dispatched to.
pub open spec fn announce_spec(args: Seq<Seq<char>>, count: nat) -> Seq<char> {
    "Running 'git "@ + joined(args) + "' on "@ + dec_str(count) + " projects."@
}

/// The summary line: the success count always, the warning and error counts
/// only when non-zero, comma-separated.
pub open spec fn summary_spec(t: Tally) -> Seq<char> {
    "Success: "@ + dec_str(t.success as nat) + (if t.failed > 0 {
        ", Warnings: "@ + dec_str(t.failed as nat)
    } else {
        Seq::<char>::empty()
    }) + (if t.errors > 0 {
        ", Errors: "@ + dec_str(t.errors as nat)
    } else {
        Seq::<char>::empty()
    })
}

/// When every command exited with code 0, the summary line is the success
/// count alone: no warnings segment and no errors segment appear.
pub proof fn lemma_summary_all_success(t: Tally, s: Seq<Outcome>)
    requires
        tally_matches(t, s),
        forall|i: int| 0 <= i < s.len() ==> s[i] == Outcome::Success,
    ensures
        summary_spec(t) == "Success: "@ + dec_str(s.len()),
{
    lemma_all_success(t, s);
    assert(summary_spec(t) =~= "Success: "@ + dec_str(s.len()));
}

/// When every command exited with a non-zero code, the summary line carries
/// a warnings segment counting them all, and no errors segment.
pub proof fn lemma_summary_all_nonzero(t: Tally, s: Seq<Outcome>)
    requires
        tally_matches(t, s),
        s.len() > 0,
        forall|i: int| 0 <= i < s.len() ==> s[i] == Outcome::NonZeroExit,
    ensures
        summary_spec(t) == "Success: "@ + dec_str(0) + ", Warnings: "@ + dec_str(s.len()),
{
    lemma_all_nonzero(t, s);
    assert(summary_spec(t) =~= "Success: "@ + dec_str(0) + ", Warnings: "@ + dec_str(s.len()));
}

/// When no command could be spawned or waited on, the summary line carries
/// an errors segment counting them all, and no warnings segment.
pub proof fn lemma_summary_all_spawn_errors(t: Tally, s: Seq<Outcome>)
    requires
        tally_matches(t, s),
        s.len() > 0,
        forall|i: int| 0 <= i < s.len() ==> s[i] == Outcome::SpawnOrWaitError,
    ensures
        summary_spec(t) == "Success: "@ + dec_str(0) + ", Errors: "@ + dec_str(s.len()),
{
    lemma_all_spawn_errors(t, s);
    assert(summary_spec(t) =~= "Success: "@ + dec_str(0) + ", Errors: "@ + dec_str(s.len()));
}

/// Compose the announcement line for the argument list and the number of
/// repositories found.
pub fn announce_line(args: &Vec<String>, count: usize) -> (r: String)
    ensures
        r@ == announce_spec(views_of(args@), count as nat),
{
    proof {
        reveal_strlit(" ");
    }
    let mut body = String::new();
    let mut i: usize = 0;
    proof {
        assert(views_of(args@).take(0) =~= Seq::<Seq<char>>::empty());
    }
    while i < args.len()
        invariant
            0 <= i <= args@.len(),
            body@ == joined(views_of(args@).take(i as int)),
        decreases args@.len() - i,
    {
        if i > 0 {
            body.append(" ");
        }
        body.append(args[i].as_str());
        proof {
            reveal_strlit(" ");
            let vs = views_of(args@);
            assert(vs.take(i + 1).drop_last() =~= vs.take(i as int));
            assert(vs.take(i + 1).last() == args@[i as int]@);
            if i == 0 {
                assert(vs.take(1).len() == 1);
                assert(joined(vs.take(1)) == vs.take(1)[0]);
            } else {
                assert(joined(vs.take(i + 1)) == joined(vs.take(i as int)) + seq![' ']
                    + args@[i as int]@);
            }
            assert(body@ =~= joined(vs.take(i + 1)));
        }
        i = i + 1;
    }
    proof {
        assert(views_of(args@).take(args@.len() as int) =~= views_of(args@));
    }
    let mut s = String::from_str("Running 'git ");
    s.append(body.as_str());
    s.append("' on ");
    let num = usize_to_string(count);
    s.append(num.as_str());
    s.append(" projects.");
    proof {
        assert(s@ =~= announce_spec(views_of(args@), count as nat));
    }
    s
}

/// Compose the summary line for a tally.
pub fn summary_line(t: &Tally) -> (r: String)
    ensures
        r@ == summary_spec(*t),
{
    let mut s = String::from_str("Success: ");
    let successes = usize_to_string(t.success);
    s.append(successes.as_str());
    if t.failed > 0 {
        s.append(", Warnings: ");
        let warnings = usize_to_string(t.failed);
        s.append(warnings.as_str());
    }
    if t.errors > 0 {
        s.append(", Errors: ");
        let errors = usize_to_string(t.errors);
        s.append(errors.as_str());
    }
    proof {
        assert(s@ =~= summary_spec(*t));
    }
    s
}

} // verus!
