//! What an invocation reports once the exchange with the service has ended.

use crate::model::Lookup;
use vstd::prelude::*;

verus! {

/// The line that reports a failed lookup of `number`.
pub open spec fn failure_line(number: Seq<char>, detail: Seq<char>) -> Seq<char> {
    "Error retrieving information on "@ + number + ": "@ + detail
}

/// The end of an invocation: either the result is shown, or one line reports
/// the failure and no result is shown.
#[derive(Debug, PartialEq, Eq)]
pub enum Conclusion {
    Show(Lookup),
    Fail(String),
}

impl Conclusion {
    /// The status with which the process ends: 0 after a result, 1 after a
    /// failure.
    pub open spec fn status(&self) -> int {
        match self {
            Conclusion::Show(_) => 0,
            Conclusion::Fail(_) => 1,
        }
    }

    /// Returns the status with which the process ends.
    pub fn exit_status(&self) -> (status: i32)
        ensures
            status == self.status(),
    {
        match self {
            Conclusion::Show(_) => 0,
            Conclusion::Fail(_) => 1,
        }
    }
}

/// Decides how the invocation for `number` ends. A result is shown as it
/// came; a failure of the exchange, of whatever kind, becomes one line that
/// names the number and carries the failure's description.
pub fn conclude(number: &str, outcome: Result<Lookup, String>) -> (end: Conclusion)
    ensures
        match outcome {
            Ok(lookup) => end == Conclusion::Show(lookup),
            Err(detail) => end matches Conclusion::Fail(line) && line@ == failure_line(
                number@,
                detail@,
            ),
        },
{
    match outcome {
        Ok(lookup) => Conclusion::Show(lookup),
        Err(detail) => {
            let mut line = String::from_str("Error retrieving information on ");
            line.append(number);
            line.append(": ");
            line.append(detail.as_str());
            Conclusion::Fail(line)
        },
    }
}

} // verus!
