//! The per-line forwarding logic.
//!
//! Each input line is interpreted as JSON. A line that parses is handed to
//! the caller for submission to the ingestion service; a line that does not
//! parse yields a two-line report (an error record, then the raw line). The
//! submission outcome then yields either nothing (delivered) or the same
//! two-line report shape with the submission failure's cause.

use vstd::prelude::*;
use crate::record::{error_record_json, ErrorRecord};

verus! {

/// The declared shape of a parsed JSON document.
///
/// Relies on `serde_json::Value`: the value is carried through to the
/// ingestion call untouched, so the library treats it as opaque.
#[verifier::external_type_specification]
#[verifier::external_body]
pub struct ExValue(serde_json::Value);

/// Whether a line is syntactically valid JSON, as `serde_json` decides it.
pub uninterp spec fn json_parse_ok(s: Seq<char>) -> bool;

/// The parser's diagnostic text for a line that is not valid JSON. The
/// diagnostic is a deterministic function of the line alone.
pub uninterp spec fn json_parse_diag(s: Seq<char>) -> Seq<char>;

/// Relies on `serde_json::from_str::<Value>`: returns `Ok` exactly when the
/// input is a syntactically valid JSON document, and `Err` with a
/// diagnostic that is deterministic for a given input otherwise.
#[verifier::external_body]
fn parse_json_value(line: &str) -> (r: Result<serde_json::Value, String>)
    ensures
        r is Ok <==> json_parse_ok(line@),
        r matches Err(d) ==> d@ == json_parse_diag(line@),
{
    match serde_json::from_str::<serde_json::Value>(line) {
        Ok(v) => Ok(v),
        Err(e) => Err(format!("{:?}", e)),
    }
}

/// A failed submission to the ingestion service, reduced to what the
/// error-reporting logic reads: either a service-reported error with its
/// optional message, or any other failure.
pub enum SubmitError {
    /// The service itself rejected the submission.
    Service { message: Option<String> },
    /// Any other failure, such as a transport error.
    Other,
}

/// The short description placed in a parse-failure record.
pub open spec fn parse_failure_message() -> Seq<char> {
    "Failed to parse line into JSON"@
}

/// The short description placed in a submit-failure record.
pub open spec fn send_failure_message() -> Seq<char> {
    "Failed to send to Axiom"@
}

/// The fallback cause used when no service message is available.
pub open spec fn unknown_error_cause() -> Seq<char> {
    "Unknown error occurred"@
}

/// The cause reported for a failed submission: the service's message when
/// one is present, the fixed fallback in every other case.
pub open spec fn submit_cause(e: SubmitError) -> Seq<char> {
    match e {
        SubmitError::Service { message: Some(m) } => m@,
        _ => unknown_error_cause(),
    }
}

/// The serialized record reported for a line that failed to parse.
pub open spec fn parse_failure_record(line: Seq<char>) -> Seq<char> {
    error_record_json(parse_failure_message(), json_parse_diag(line), line)
}

/// The serialized record reported for a line whose submission failed.
pub open spec fn submit_failure_record(line: Seq<char>, e: SubmitError) -> Seq<char> {
    error_record_json(send_failure_message(), submit_cause(e), line)
}

/// The two output lines reporting one failure: the serialized error record,
/// then the original line verbatim.
pub struct Report {
    /// The serialized error record.
    pub record: String,
    /// The original input line, re-emitted verbatim.
    pub raw: String,
}

/// What to do with one input line after the parse attempt: submit the
/// parsed document, or emit the parse-failure report and stop.
pub enum LineStep {
    /// The line parsed; submit this document to the ingestion service.
    Submit(serde_json::Value),
    /// The line did not parse; emit these two lines and move on.
    Reject(Report),
}

/// Extracts the cause for a failed submission.
pub fn submit_error_cause(e: &SubmitError) -> (r: String)
    ensures
        r@ == submit_cause(*e),
{
    match e {
        SubmitError::Service { message: Some(m) } => m.clone(),
        _ => "Unknown error occurred".to_owned(),
    }
}

/// Decides the first step for one input line: parse it, and either hand the
/// document on for submission or report the parse failure.
pub fn begin_line(line: &str) -> (r: LineStep)
    ensures
        json_parse_ok(line@) ==> r is Submit,
        !json_parse_ok(line@) ==> (r matches LineStep::Reject(p) && p.record@
            == parse_failure_record(line@) && p.raw@ == line@),
{
    match parse_json_value(line) {
        Ok(v) => LineStep::Submit(v),
        Err(diag) => {
            let rec = ErrorRecord {
                message: "Failed to parse line into JSON".to_owned(),
                cause: diag,
                log: line.to_owned(),
            };
            LineStep::Reject(Report { record: rec.to_json_line(), raw: line.to_owned() })
        },
    }
}

/// Decides what to emit once a parsed line's submission has completed:
/// nothing on success, the submit-failure report on failure.
pub fn finish_line(line: &str, outcome: Result<(), SubmitError>) -> (r: Option<Report>)
    ensures
        outcome is Ok ==> r is None,
        outcome matches Err(e) ==> (r matches Some(p) && p.record@ == submit_failure_record(
            line@,
            e,
        ) && p.raw@ == line@),
{
    match outcome {
        Ok(_) => None,
        Err(e) => {
            let rec = ErrorRecord {
                message: "Failed to send to Axiom".to_owned(),
                cause: submit_error_cause(&e),
                log: line.to_owned(),
            };
            Some(Report { record: rec.to_json_line(), raw: line.to_owned() })
        },
    }
}

} // verus!
