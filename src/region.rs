//! Choice of the package index: a mirror is used where the region lookup
//! places the machine in mainland China.

use vstd::prelude::*;
use vstd::string::*;

verus! {

/// serde_json's document type, carried through unopened.
#[verifier::external_type_specification]
#[verifier::external_body]
pub struct ExJsonValue(serde_json::Value);

/// serde_json's parse error, carried through unopened.
#[verifier::external_type_specification]
#[verifier::external_body]
pub struct ExJsonError(serde_json::Error);

/// Whether `serde_json::from_slice` finds a JSON document in `b`.
pub uninterp spec fn parses_as_json(b: Seq<u8>) -> bool;

/// Relies on `serde_json::from_slice`: the JSON document in `body`, or the
/// error that says why it is none; which of the two depends on the bytes
/// alone.
#[verifier::external_body]
fn parse_json(body: &[u8]) -> (r: Result<serde_json::Value, serde_json::Error>)
    ensures
        r is Ok <==> parses_as_json(body@),
{
    serde_json::from_slice(body)
}

/// Relies on `serde_json::Value::get`: the member `key` of an object, if the
/// value is one and has it.
#[verifier::external_body]
fn json_member<'a>(v: &'a serde_json::Value, key: &str) -> (r: Option<&'a serde_json::Value>) {
    v.get(key)
}

/// Relies on `serde_json::Value::as_str`: the text of a JSON string.
#[verifier::external_body]
fn json_text(v: &serde_json::Value) -> (r: Option<String>) {
    v.as_str().map(String::from)
}

/// The text that `str::to_uppercase` makes of `s`.
pub uninterp spec fn upper_of(s: Seq<char>) -> Seq<char>;

/// Relies on `str::to_uppercase`: the upper-case form of the text, which
/// depends on its characters alone; the empty text stays empty.
#[verifier::external_body]
fn uppercase(s: &str) -> (r: String)
    ensures
        r@ == upper_of(s@),
        s@.len() == 0 ==> r@.len() == 0,
{
    s.to_uppercase()
}

/// Whether an upper-case country code is that of mainland China.
pub fn is_mirror_country(upper_code: &str) -> (r: bool)
    ensures
        r == (upper_code@ == "CN"@),
{
    let cn = String::from_str("CN");
    let code = String::from_str(upper_code);
    code == cn
}

/// Whether the country code, in any case, calls for the mirror index. A
/// missing code never does.
pub fn mirror_wanted(country_code: Option<String>) -> (r: bool)
    ensures
        r == (country_code matches Some(c) && upper_of(c@) == "CN"@),
{
    proof {
        reveal_strlit("CN");
    }
    match country_code {
        Some(c) => {
            let u = uppercase(c.as_str());
            is_mirror_country(u.as_str())
        },
        None => false,
    }
}

/// Whether the answer of the region lookup service calls for the mirror
/// index: its `country_code` member, a string, is `CN` in any case. A body
/// that is not JSON, or has no such member, never does.
pub fn prefers_mirror(body: &[u8]) -> (r: bool)
    ensures
        !parses_as_json(body@) ==> !r,
{
    match parse_json(body) {
        Ok(doc) => {
            let code = match json_member(&doc, "country_code") {
                Some(m) => json_text(m),
                None => None,
            };
            mirror_wanted(code)
        },
        Err(_) => false,
    }
}

} // verus!
