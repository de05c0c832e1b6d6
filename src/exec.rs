//! Turning the outcome of one run of an external program into a result for the caller.

use vstd::prelude::*;

use crate::text::{is_white_space_spec, lemma_strip_trailing_shape, strip_trailing, trim_end};

verus! {

/// How one attempt to run an external program ended.
pub enum ProcessOutcome {
    /// The program ran and exited; `success` tells whether its exit status was zero, and the
    /// two streams hold what it wrote, already decoded as text.
    Exited { success: bool, stdout: String, stderr: String },
    /// The program could not be started; `reason` describes the error that the system gave.
    NotStarted { reason: String },
}

/// The view of a command's result: the text of `Ok` or of `Err`.
pub open spec fn result_view(r: Result<String, String>) -> Result<Seq<char>, Seq<char>> {
    match r {
        Ok(t) => Ok(t@),
        Err(t) => Err(t@),
    }
}

/// The result that an outcome calls for: standard output on success, standard error on a
/// failed exit, each without trailing white space, and the system's reason when the program
/// could not be started.
pub open spec fn expected_result(o: ProcessOutcome) -> Result<Seq<char>, Seq<char>> {
    match o {
        ProcessOutcome::Exited { success, stdout, stderr } => if success {
            Ok(strip_trailing(stdout@))
        } else {
            Err(strip_trailing(stderr@))
        },
        ProcessOutcome::NotStarted { reason } => Err(reason@),
    }
}

/// Classifies how a run ended: `Ok` with the trimmed standard output when the program exited
/// successfully, `Err` with the trimmed standard error when it exited with a failure, and `Err`
/// with the reason when it could not be started.
pub fn command_result(outcome: ProcessOutcome) -> (r: Result<String, String>)
    ensures
        result_view(r) == expected_result(outcome),
{
    match outcome {
        ProcessOutcome::Exited { success, stdout, stderr } => {
            if success {
                Ok(trim_end(stdout.as_str()))
            } else {
                Err(trim_end(stderr.as_str()))
            }
        },
        ProcessOutcome::NotStarted { reason } => Err(reason),
    }
}

/// A run is classified by its outcome alone: two runs that end alike give the same result.
pub proof fn lemma_same_outcome_same_result(a: ProcessOutcome, b: ProcessOutcome)
    requires
        a == b,
    ensures
        expected_result(a) == expected_result(b),
{
}

/// The stream that an exited run reports: standard output on success, standard error on
/// failure.
pub open spec fn reported_stream(success: bool, stdout: Seq<char>, stderr: Seq<char>) -> Seq<
    char,
> {
    if success {
        stdout
    } else {
        stderr
    }
}

/// The text of a run's result, whichever side it is on.
pub open spec fn result_text(r: Result<Seq<char>, Seq<char>>) -> Seq<char> {
    match r {
        Ok(t) => t,
        Err(t) => t,
    }
}

/// For a program that ran, the text returned is the reported stream with its trailing white
/// space removed and nothing else changed: it is a prefix of the stream, all that was cut is
/// white space, and it does not itself end in white space.
pub proof fn lemma_exited_text_is_trimmed_stream(success: bool, stdout: String, stderr: String)
    ensures
        ({
            let stream = reported_stream(success, stdout@, stderr@);
            let t = result_text(
                expected_result(ProcessOutcome::Exited { success, stdout, stderr }),
            );
            &&& t == strip_trailing(stream)
            &&& t == stream.subrange(0, t.len() as int)
            &&& forall|i: int| t.len() <= i < stream.len() ==> is_white_space_spec(#[trigger] stream[i])
            &&& t.len() == 0 || !is_white_space_spec(t.last())
        }),
{
    lemma_strip_trailing_shape(reported_stream(success, stdout@, stderr@));
}

} // verus!
