//! The result record a worker produces for one repository, and the rules for
//! assembling its captured output.

use vstd::prelude::*;

use crate::outcome::{classify_spec, classify_exit, Outcome};

verus! {

/// The single line separator appended after each captured block.
pub open spec fn newline() -> Seq<char> {
    seq!['\n']
}

/// Captured standard output and standard error are concatenated, each on its
/// own line when non-empty, standard output first.
pub open spec fn compose_spec(out: Seq<char>, err: Seq<char>) -> Seq<char> {
    (if out.len() > 0 {
        out + newline()
    } else {
        Seq::<char>::empty()
    }) + (if err.len() > 0 {
        err + newline()
    } else {
        Seq::<char>::empty()
    })
}

/// What one task produced: the repository it ran in, how the command ended,
/// and the text to show for it.
pub struct ExecutionResult {
    pub path: String,
    pub outcome: Outcome,
    pub output: String,
}

/// Assemble the output block from the command's captured streams: each
/// non-empty stream on its own line, standard output before standard error.
pub fn compose_output(out_text: &str, err_text: &str) -> (r: String)
    ensures
        r@ == compose_spec(out_text@, err_text@),
{
    proof {
        reveal_strlit("\n");
    }
    let mut s = String::new();
    if !out_text.is_empty() {
        s.append(out_text);
        s.append("\n");
    }
    if !err_text.is_empty() {
        s.append(err_text);
        s.append("\n");
    }
    proof {
        assert(s@ =~= compose_spec(out_text@, err_text@));
    }
    s
}

/// Build the record for a command that was spawned and waited on: the outcome
/// classifies the exit status, and the output holds both captured streams.
pub fn run_result(path: String, code: Option<i32>, out_text: &str, err_text: &str) -> (r:
    ExecutionResult)
    ensures
        r.path == path,
        r.outcome == classify_spec(code),
        r.output@ == compose_spec(out_text@, err_text@),
{
    ExecutionResult { path, outcome: classify_exit(code), output: compose_output(out_text, err_text) }
}

/// Build the record for a command that could not be spawned or waited on:
/// the output holds the error description on its own line, never empty.
pub fn spawn_error_result(path: String, err_text: &str) -> (r: ExecutionResult)
    ensures
        r.path == path,
        r.outcome == Outcome::SpawnOrWaitError,
        r.output@ == err_text@ + newline(),
        r.output@.len() > 0,
{
    proof {
        reveal_strlit("\n");
    }
    let mut s = String::new();
    s.append(err_text);
    s.append("\n");
    proof {
        assert(s@ =~= err_text@ + newline());
    }
    ExecutionResult { path, outcome: Outcome::SpawnOrWaitError, output: s }
}

} // verus!
