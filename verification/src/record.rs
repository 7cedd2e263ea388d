//! Structured error records.
//!
//! A failed line produces an [`ErrorRecord`]: a short machine-oriented
//! description under `error.message`, a human-readable `cause`, and the
//! original line under `log`. The record is serialized to a single JSON
//! line with exactly those three fields, in that order.

use vstd::prelude::*;
use crate::escape::{append_escaped, escape_seq};

verus! {

/// A quoted JSON string literal holding `s`.
pub open spec fn json_quoted(s: Seq<char>) -> Seq<char> {
    seq!['"'] + escape_seq(s) + seq!['"']
}

/// The one-line JSON serialization of an error record: an `error` object
/// holding `message`, then `cause`, then `log`.
pub open spec fn error_record_json(message: Seq<char>, cause: Seq<char>, log: Seq<char>) -> Seq<
    char,
> {
    "{\"error\":{\"message\":"@ + json_quoted(message) + "},\"cause\":"@ + json_quoted(cause)
        + ",\"log\":"@ + json_quoted(log) + "}"@
}

/// A structured report of one failed input line.
pub struct ErrorRecord {
    /// Short machine-oriented description of what failed.
    pub message: String,
    /// Human-readable detail: a parser diagnostic or a service message.
    pub cause: String,
    /// The original input line, verbatim.
    pub log: String,
}

/// Appends `s` to `out` as a quoted JSON string literal.
fn append_quoted(out: &mut String, s: &str)
    ensures
        final(out)@ == old(out)@ + json_quoted(s@),
{
    out.append("\"");
    append_escaped(out, s);
    out.append("\"");
    proof {
        reveal_strlit("\"");
        assert(((old(out)@ + ("\"")@) + escape_seq(s@)) + ("\"")@ =~= old(out)@ + json_quoted(
            s@,
        ));
    }
}

impl ErrorRecord {
    /// The record's serialization, as a mathematical value.
    pub open spec fn json(self) -> Seq<char> {
        error_record_json(self.message@, self.cause@, self.log@)
    }

    /// Serializes the record to its one-line JSON form.
    pub fn to_json_line(&self) -> (r: String)
        ensures
            r@ == self.json(),
    {
        let mut out = "{\"error\":{\"message\":".to_owned();
        append_quoted(&mut out, self.message.as_str());
        out.append("},\"cause\":");
        append_quoted(&mut out, self.cause.as_str());
        out.append(",\"log\":");
        append_quoted(&mut out, self.log.as_str());
        out.append("}");
        proof {
            assert(((((((("{\"error\":{\"message\":")@ + json_quoted(self.message@))
                + ("},\"cause\":")@) + json_quoted(self.cause@)) + (",\"log\":")@) + json_quoted(
                self.log@,
            )) + ("}")@) =~= self.json());
        }
        out
    }
}

} // verus!
