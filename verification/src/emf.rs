//! Structured-log detection: a line that is a JSON object with a top-level
//! `"_aws"` key is an embedded-metric record and is exempt from every rule.

use vstd::prelude::*;
use vstd::string::StrSliceExecFns;

use crate::chars::str_trim;
use crate::chars::trimmed;

verus! {

/// Whether a string parses as JSON and the parsed value is an object with a
/// top-level key literally named `_aws`.
pub uninterp spec fn json_object_with_aws_key(s: Seq<char>) -> bool;

/// Relies on serde_json::from_str and serde_json::Value::get: whether a string
/// parses as JSON, and whether the parsed value is an object holding a
/// top-level `"_aws"` key, depend on the string's characters alone.
#[verifier::external_body]
fn parses_with_aws_key(s: &str) -> (r: bool)
    ensures
        r == json_object_with_aws_key(s@),
{
    match serde_json::from_str::<serde_json::Value>(s) {
        Ok(value) => value.get("_aws").is_some(),
        Err(_) => false,
    }
}

/// A structured metric line: after trimming surrounding whitespace it is
/// brace-delimited, parses as JSON, and the object has a top-level `_aws` key.
pub open spec fn is_structured_metric(s: Seq<char>) -> bool {
    let t = trimmed(s);
    &&& t.len() > 0
    &&& t.first() == '{'
    &&& t.last() == '}'
    &&& json_object_with_aws_key(t)
}

/// Decide whether a line is a structured metric record. The parse runs only
/// when the trimmed line is brace-delimited, so ordinary lines are rejected
/// without parsing.
pub fn is_embedded_metric_line(line: &str) -> (r: bool)
    ensures
        r == is_structured_metric(line@),
{
    let t = str_trim(line);
    let n = t.unicode_len();
    if n == 0 {
        return false;
    }
    if t.get_char(0) != '{' {
        return false;
    }
    if t.get_char(n - 1) != '}' {
        return false;
    }
    parses_with_aws_key(t)
}

} // verus!
