//! The whole pipeline, as a mathematical model, and the laws it obeys.
//!
//! One input line together with its submission outcome determines the
//! output for that line: nothing when the line parsed and was delivered,
//! and exactly two lines — the serialized error record, then the raw line —
//! on any failure. A run of the pipeline is the concatenation of these
//! per-line outputs, in input order.

use vstd::prelude::*;
use crate::forward::{
    json_parse_ok, parse_failure_record, submit_cause, submit_failure_record, unknown_error_cause,
    SubmitError,
};

verus! {

/// One input line paired with the outcome of its submission. For a line
/// that does not parse, no submission happens and the outcome is ignored.
pub struct LineEvent {
    /// The input line, terminator stripped.
    pub line: Seq<char>,
    /// The collaborator's answer for this line's submission.
    pub outcome: Result<(), SubmitError>,
}

/// The output lines the pipeline emits for one input line.
pub open spec fn line_output(ev: LineEvent) -> Seq<Seq<char>> {
    if !json_parse_ok(ev.line) {
        seq![parse_failure_record(ev.line), ev.line]
    } else {
        match ev.outcome {
            Ok(_) => Seq::empty(),
            Err(e) => seq![submit_failure_record(ev.line, e), ev.line],
        }
    }
}

/// The output lines of a whole run, in input order.
pub open spec fn pipeline_output(events: Seq<LineEvent>) -> Seq<Seq<char>>
    decreases events.len(),
{
    if events.len() == 0 {
        Seq::empty()
    } else {
        line_output(events[0]) + pipeline_output(events.drop_first())
    }
}

/// One input line produces zero or two output lines, never one. Output is
/// produced exactly when something failed, and the raw line is then
/// re-emitted verbatim as the second of the two.
pub proof fn lemma_output_zero_or_two(ev: LineEvent)
    ensures
        line_output(ev).len() == 0 || line_output(ev).len() == 2,
        line_output(ev).len() == 0 <==> json_parse_ok(ev.line) && ev.outcome is Ok,
        line_output(ev).len() == 2 ==> line_output(ev)[1] == ev.line,
{
}

/// A valid line that is delivered leaves no trace in the output.
pub proof fn lemma_delivered_line_emits_nothing(ev: LineEvent)
    requires
        json_parse_ok(ev.line),
        ev.outcome is Ok,
    ensures
        line_output(ev) == Seq::<Seq<char>>::empty(),
{
}

/// A line that is not valid JSON yields exactly two output lines: the
/// parse-failure record, then the line itself verbatim.
pub proof fn lemma_parse_failure_output(ev: LineEvent)
    requires
        !json_parse_ok(ev.line),
    ensures
        line_output(ev).len() == 2,
        line_output(ev)[0] == parse_failure_record(ev.line),
        line_output(ev)[1] == ev.line,
{
}

/// A valid line whose submission fails yields exactly two output lines:
/// the submit-failure record, then the line itself verbatim. When the
/// failure is a service error carrying a message, the record's cause is
/// that message exactly.
pub proof fn lemma_service_message_is_cause(ev: LineEvent, m: String)
    requires
        json_parse_ok(ev.line),
        ev.outcome == Result::<(), SubmitError>::Err(
            SubmitError::Service { message: Some(m) },
        ),
    ensures
        line_output(ev).len() == 2,
        line_output(ev)[0] == submit_failure_record(
            ev.line,
            SubmitError::Service { message: Some(m) },
        ),
        line_output(ev)[1] == ev.line,
        submit_cause(SubmitError::Service { message: Some(m) }) == m@,
{
}

/// A valid line whose submission fails without a service message — a
/// service error carrying none, or any other failure — is reported with
/// the fixed fallback cause.
pub proof fn lemma_fallback_cause(ev: LineEvent, e: SubmitError)
    requires
        json_parse_ok(ev.line),
        ev.outcome == Result::<(), SubmitError>::Err(e),
        !(e matches SubmitError::Service { message: Some(_) }),
    ensures
        line_output(ev).len() == 2,
        line_output(ev)[0] == submit_failure_record(ev.line, e),
        line_output(ev)[1] == ev.line,
        submit_cause(e) == unknown_error_cause(),
{
}

/// Extending a run by one line appends that line's output after everything
/// already emitted: output order follows input order, and each line's pair
/// of output lines stays together.
pub proof fn lemma_pipeline_output_push(events: Seq<LineEvent>, ev: LineEvent)
    ensures
        pipeline_output(events.push(ev)) == pipeline_output(events) + line_output(ev),
    decreases events.len(),
{
    reveal_with_fuel(pipeline_output, 2);
    assert(events.push(ev).len() == events.len() + 1);
    if events.len() == 0 {
        assert(events.push(ev)[0] == ev);
        assert(events.push(ev).drop_first() =~= Seq::<LineEvent>::empty());
        assert(line_output(ev) + Seq::<Seq<char>>::empty() =~= line_output(ev));
        assert(Seq::<Seq<char>>::empty() + line_output(ev) =~= line_output(ev));    } else {
        assert(events.push(ev)[0] == events[0]);
        assert(events.push(ev).drop_first() =~= events.drop_first().push(ev));
        lemma_pipeline_output_push(events.drop_first(), ev);
        assert(line_output(events[0]) + (pipeline_output(events.drop_first()) + line_output(ev))
            =~= (line_output(events[0]) + pipeline_output(events.drop_first())) + line_output(
            ev,
        ));    }
}

/// Two runs over the same ordered events — same lines, same parse and
/// submission outcomes — produce the same output sequence.
pub proof fn lemma_pipeline_deterministic(a: Seq<LineEvent>, b: Seq<LineEvent>)
    requires
        a.len() == b.len(),
        forall|i: int| 0 <= i < a.len() ==> a[i] == b[i],
    ensures
        pipeline_output(a) == pipeline_output(b),
{
    assert(a =~= b);
}

} // verus!
