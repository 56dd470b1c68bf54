//! The structured JSON envelope that surviving plain lines are rewritten
//! into when a wrap level is configured.

use vstd::prelude::*;

verus! {

/// The JSON text that serde_json renders for an object with exactly the keys
/// `level`, `message` and `timestamp`, bound to the three given texts.
pub uninterp spec fn envelope_of(
    timestamp: Seq<char>,
    level: Seq<char>,
    message: Seq<char>,
) -> Seq<char>;

/// An ASCII decimal digit.
pub open spec fn is_digit_char(c: char) -> bool {
    0x30 <= (c as u32) && (c as u32) <= 0x39
}

/// The fixed shape of the envelope timestamp: an ISO-8601 UTC instant with
/// six fractional digits and a `Z` suffix, 27 characters long.
pub open spec fn timestamp_shape(ts: Seq<char>) -> bool {
    &&& ts.len() == 27
    &&& ts[4] == '-'
    &&& ts[7] == '-'
    &&& ts[10] == 'T'
    &&& ts[13] == ':'
    &&& ts[16] == ':'
    &&& ts[19] == '.'
    &&& ts[26] == 'Z'
    &&& forall|i: int|
        0 <= i < 27 && i != 4 && i != 7 && i != 10 && i != 13 && i != 16 && i != 19 && i != 26
            ==> is_digit_char(#[trigger] ts[i])
}

/// Relies on chrono's Utc::now and DateTime formatting with
/// `%Y-%m-%dT%H:%M:%S%.6fZ`: for any instant the system clock reports (whose
/// year has four digits), the rendered text has a zero-padded four-digit
/// year, zero-padded date and time fields, six fractional digits and a
/// literal `Z`, 27 characters in all.
#[verifier::external_body]
fn utc_timestamp() -> (r: String)
    ensures
        timestamp_shape(r@),
{
    chrono::Utc::now().format("%Y-%m-%dT%H:%M:%S%.6fZ").to_string()
}

/// Relies on serde_json's JSON rendering (Value::to_string on an object built
/// by Map::insert): the rendered envelope depends on the three texts alone.
#[verifier::external_body]
fn render_envelope(timestamp: &str, level: &str, message: &str) -> (r: String)
    ensures
        r@ == envelope_of(timestamp@, level@, message@),
{
    let mut fields = serde_json::Map::new();
    fields.insert(String::from("timestamp"), serde_json::Value::String(String::from(timestamp)));
    fields.insert(String::from("level"), serde_json::Value::String(String::from(level)));
    fields.insert(String::from("message"), serde_json::Value::String(String::from(message)));
    serde_json::Value::Object(fields).to_string()
}

/// The output of wrapping: the envelope for the given level and message,
/// carrying some timestamp of the fixed shape.
pub open spec fn wrapped_envelope(out: Seq<char>, level: Seq<char>, message: Seq<char>) -> bool {
    exists|ts: Seq<char>| #[trigger] envelope_of(ts, level, message) == out && timestamp_shape(ts)
}

/// Rewrite a surviving line as a structured envelope tagged with `level`,
/// carrying the original text and the current UTC time.
pub fn wrap_line(level: &str, message: &str) -> (r: String)
    ensures
        wrapped_envelope(r@, level@, message@),
{
    let ts = utc_timestamp();
    let r = render_envelope(ts.as_str(), level, message);
    proof {
        assert(envelope_of(ts@, level@, message@) == r@ && timestamp_shape(ts@));
    }
    r
}

} // verus!
