use vstd::prelude::*;
use crate::text::{contains_infix, has_infix, lowercase, to_lowercase};

verus! {

/// How the progress overlay presents an operation.
#[derive(PartialEq, Eq, Debug, Structural)]
pub enum ProgressTone {
    Failed,
    TimedOut,
    Complete,
    InFlight,
}

/// Whether a progress message reports a failure: its lowercase form mentions "error" or "failed".
pub open spec fn reports_failure(message: Seq<char>) -> bool {
    has_infix(lowercase(message), "error"@) || has_infix(lowercase(message), "failed"@)
}

/// The tone of a progress state; `finished` tells whether the progress reached 1.
pub open spec fn spec_progress_tone(message: Seq<char>, finished: bool) -> ProgressTone {
    if reports_failure(message) {
        ProgressTone::Failed
    } else if has_infix(lowercase(message), "timed out"@) {
        ProgressTone::TimedOut
    } else if finished {
        ProgressTone::Complete
    } else {
        ProgressTone::InFlight
    }
}

/// Whether a progress message reports a failure.
pub fn message_reports_failure(message: &str) -> (r: bool)
    ensures
        r == reports_failure(message@),
{
    let lower = to_lowercase(message);
    contains_infix(lower.as_str(), "error") || contains_infix(lower.as_str(), "failed")
}

/// The tone of a progress state: failures first, then time-outs, then completion.
pub fn progress_tone(message: &str, finished: bool) -> (r: ProgressTone)
    ensures
        r == spec_progress_tone(message@, finished),
{
    if message_reports_failure(message) {
        ProgressTone::Failed
    } else if contains_infix(to_lowercase(message).as_str(), "timed out") {
        ProgressTone::TimedOut
    } else if finished {
        ProgressTone::Complete
    } else {
        ProgressTone::InFlight
    }
}

/// The fill and text colours of a tone; an operation in flight pulses, so it has none fixed.
pub fn tone_colors(tone: &ProgressTone) -> (r: Option<(String, String)>)
    ensures
        r.deep_view() == match *tone {
            ProgressTone::Failed => Some(("#dc2626"@, "#ffffff"@)),
            ProgressTone::TimedOut => Some(("#eab308"@, "#000000"@)),
            ProgressTone::Complete => Some(("#16a34a"@, "#ffffff"@)),
            ProgressTone::InFlight => None::<(Seq<char>, Seq<char>)>,
        },
{
    match tone {
        ProgressTone::Failed => Some(("#dc2626".to_owned(), "#ffffff".to_owned())),
        ProgressTone::TimedOut => Some(("#eab308".to_owned(), "#000000".to_owned())),
        ProgressTone::Complete => Some(("#16a34a".to_owned(), "#ffffff".to_owned())),
        ProgressTone::InFlight => None,
    }
}

/// Whether the overlay should go away: the operation finished or failed.
pub fn should_dismiss(message: &str, finished: bool) -> (r: bool)
    ensures
        r == (finished || reports_failure(message@)),
{
    finished || message_reports_failure(message)
}

/// Whether an operation has been in flight too long: not finished, not failed, and 15
/// seconds or more since the last change.
pub fn timed_out(message: &str, finished: bool, elapsed_secs: u64) -> (r: bool)
    ensures
        r == (!finished && !reports_failure(message@) && elapsed_secs >= 15),
{
    !finished && !message_reports_failure(message) && elapsed_secs >= 15
}

/// An operation is either dismissed or still waiting for its time-out, never both; a
/// failure always shows as a failure and is dismissed.
pub proof fn law_progress_states(message: Seq<char>, finished: bool, elapsed_secs: u64)
    ensures
        reports_failure(message) ==> spec_progress_tone(message, finished) == ProgressTone::Failed,
        spec_progress_tone(message, finished) == ProgressTone::InFlight ==> !finished && !reports_failure(message),
        !((finished || reports_failure(message)) && (!finished && !reports_failure(message) && elapsed_secs >= 15)),
{
}

} // verus!
