//! The text with which a failed unwrap is reported.

use vstd::prelude::*;
use vstd::string::StringExecFns;
use core::fmt::Debug;

verus! {

/// The report of a failed unwrap: the description, a colon and a space, and
/// the rendering of what was found instead.
pub open spec fn report_text(description: Seq<char>, rendering: Seq<char>) -> Seq<char> {
    description + ": "@ + rendering
}

/// `format!` with `{:?}`: the rendering that the type's `Debug` gives of the
/// value. Nothing is claimed of the text, which is the type's own affair.
#[verifier::external_body]
fn debug_rendering(value: &dyn Debug) -> String {
    format!("{:?}", value)
}

/// Joins a description and a rendering into a report.
pub fn failure_report(description: &str, rendering: &str) -> (report: String)
    ensures
        report@ == report_text(description@, rendering@),
{
    let mut report = String::from_str(description);
    report.append(": ");
    report.append(rendering);
    report
}

/// The report of a failed unwrap on `error`, the payload that was found:
/// `msg`, then the rendering of `error`.
pub fn unwrap_failed(msg: &str, error: &dyn Debug) -> (report: String)
    ensures
        exists|rendering: Seq<char>| report@ == report_text(msg@, rendering),
{
    let rendering = debug_rendering(error);
    let report = failure_report(msg, rendering.as_str());
    assert(report@ == report_text(msg@, rendering@));
    report
}

} // verus!
