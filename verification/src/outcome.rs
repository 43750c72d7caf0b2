//! Classification of one task's completion, and the presentation attributes
//! (header colour, destination stream) that follow from it.

use vstd::prelude::*;

verus! {

/// How one command invocation ended.
#[derive(Clone, Copy, Debug, PartialEq, Eq, Structural)]
pub enum Outcome {
    /// The command ran and exited with code 0.
    Success,
    /// The command ran and exited with a code other than 0.
    NonZeroExit,
    /// The command could not be spawned or waited on, or it was terminated
    /// without an exit code.
    SpawnOrWaitError,
}

/// The colour of a result block's header line.
#[derive(Clone, Copy, Debug, PartialEq, Eq, Structural)]
pub enum HeaderColor {
    Green,
    Yellow,
    Red,
}

/// The stream a result block's body is routed to.
#[derive(Clone, Copy, Debug, PartialEq, Eq, Structural)]
pub enum BodyStream {
    StandardOut,
    StandardError,
}

/// What an exit status means: code 0 is success, any other code is a
/// non-zero exit, and the absence of a code (the process was terminated
/// abnormally) is treated like a failure to spawn or wait.
pub open spec fn classify_spec(code: Option<i32>) -> Outcome {
    match code {
        Some(c) => if c == 0 {
            Outcome::Success
        } else {
            Outcome::NonZeroExit
        },
        None => Outcome::SpawnOrWaitError,
    }
}

/// Classify the exit status a wait returned.
pub fn classify_exit(code: Option<i32>) -> (r: Outcome)
    ensures
        r == classify_spec(code),
{
    match code {
        Some(0) => Outcome::Success,
        Some(_) => Outcome::NonZeroExit,
        None => Outcome::SpawnOrWaitError,
    }
}

/// The header colour each outcome is shown with.
pub open spec fn header_color_spec(o: Outcome) -> HeaderColor {
    match o {
        Outcome::Success => HeaderColor::Green,
        Outcome::NonZeroExit => HeaderColor::Yellow,
        Outcome::SpawnOrWaitError => HeaderColor::Red,
    }
}

/// Pick the header colour for an outcome: green for success, yellow for a
/// non-zero exit, red for a spawn or wait error.
pub fn header_color(o: Outcome) -> (r: HeaderColor)
    ensures
        r == header_color_spec(o),
{
    match o {
        Outcome::Success => HeaderColor::Green,
        Outcome::NonZeroExit => HeaderColor::Yellow,
        Outcome::SpawnOrWaitError => HeaderColor::Red,
    }
}

/// The stream each outcome's captured output is routed to.
pub open spec fn body_stream_spec(o: Outcome) -> BodyStream {
    match o {
        Outcome::Success => BodyStream::StandardOut,
        Outcome::NonZeroExit => BodyStream::StandardError,
        Outcome::SpawnOrWaitError => BodyStream::StandardError,
    }
}

/// Pick the stream for an outcome's body: standard output on success,
/// standard error otherwise.
pub fn body_stream(o: Outcome) -> (r: BodyStream)
    ensures
        r == body_stream_spec(o),
{
    match o {
        Outcome::Success => BodyStream::StandardOut,
        _ => BodyStream::StandardError,
    }
}

} // verus!
