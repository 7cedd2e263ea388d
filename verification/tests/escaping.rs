use log_forwarder::escape::escape_json_string;
use log_forwarder::record::ErrorRecord;

/// Plain text passes through unchanged.
#[test]
fn plain_text_unchanged() {
    assert_eq!(escape_json_string("hello world"), "hello world");
    assert_eq!(escape_json_string(""), "");
}

/// Quotes and backslashes get a backslash escape; the common control
/// characters get their short forms; other control characters get `\u00XX`.
#[test]
fn special_characters_escaped() {
    assert_eq!(escape_json_string("say \"hi\""), "say \\\"hi\\\"");
    assert_eq!(escape_json_string("a\\b"), "a\\\\b");
    assert_eq!(escape_json_string("a\nb\tc\rd"), "a\\nb\\tc\\rd");
    assert_eq!(escape_json_string("\u{08}\u{0C}"), "\\b\\f");
    assert_eq!(escape_json_string("\u{01}\u{1f}"), "\\u0001\\u001f");
    assert_eq!(escape_json_string("héllo"), "héllo");
}

/// The escaping agrees with serde_json's own string serialization.
#[test]
fn agrees_with_serde_json() {
    let samples = [
        "plain",
        "with \"quotes\" and \\slashes\\",
        "line\nbreaks\tand\rreturns",
        "control \u{00}\u{07}\u{0b}\u{1f} bytes",
        "unicode: héllo wörld ✓",
        "",
    ];
    for s in samples {
        let quoted = serde_json::to_string(s).unwrap();
        let expected = &quoted[1..quoted.len() - 1];
        assert_eq!(escape_json_string(s), expected);
    }
}

/// The record serializer emits the three fields in order, with escaping
/// applied to each.
#[test]
fn record_serialization_exact() {
    let record = ErrorRecord {
        message: "Failed to send to Axiom".to_owned(),
        cause: "a \"quoted\" cause".to_owned(),
        log: "{\"a\":1}".to_owned(),
    };
    assert_eq!(
        record.to_json_line(),
        "{\"error\":{\"message\":\"Failed to send to Axiom\"},\"cause\":\"a \\\"quoted\\\" cause\",\"log\":\"{\\\"a\\\":1}\"}"
    );
}

/// A serialized record round-trips through a JSON parser with the original
/// field values, whatever the line held.
#[test]
fn record_round_trips() {
    let record = ErrorRecord {
        message: "Failed to parse line into JSON".to_owned(),
        cause: "weird \u{01} diag".to_owned(),
        log: "tab\there \"and\" \\ more\n".to_owned(),
    };
    let line = record.to_json_line();
    let value: serde_json::Value = serde_json::from_str(&line).unwrap();
    assert_eq!(
        value.get("error").unwrap().get("message").unwrap().as_str().unwrap(),
        record.message
    );
    assert_eq!(value.get("cause").unwrap().as_str().unwrap(), record.cause);
    assert_eq!(value.get("log").unwrap().as_str().unwrap(), record.log);
}
