//! JSON body binding: the echo route requires a JSON object with a string
//! member `some_data`. A body that is not such an object is a binding
//! failure; members other than `some_data` are ignored.

use vstd::prelude::*;

verus! {

/// The bound form of the echo request body.
#[derive(Clone, Debug)]
pub struct SomeExampleJson {
    pub some_data: String,
}

/// The string that the member `some_data` holds when `body` is the text of a
/// JSON object with such a string member; `None` on any other body text.
pub uninterp spec fn json_some_data(body: Seq<char>) -> Option<Seq<char>>;

/// Relies on `serde_json::from_str` to parse the body as a JSON value and on
/// `serde_json::Map::get` to look the member up: whether `body` is a JSON
/// object whose member `some_data` is a string, and which string that is,
/// depend on the body text alone.
#[verifier::external_body]
fn parse_some_data(body: &str) -> (r: Option<String>)
    ensures
        r is Some <==> json_some_data(body@) is Some,
        r matches Some(d) ==> json_some_data(body@) == Some(d@),
{
    match serde_json::from_str::<serde_json::Value>(body) {
        Ok(serde_json::Value::Object(map)) => match map.get("some_data") {
            Some(serde_json::Value::String(s)) => Some(s.clone()),
            _ => None,
        },
        _ => None,
    }
}

/// Binds the raw request body to its typed form; `None` is a binding failure.
pub fn bind_body(body: &str) -> (r: Option<SomeExampleJson>)
    ensures
        r is Some <==> json_some_data(body@) is Some,
        r matches Some(e) ==> json_some_data(body@) == Some(e.some_data@),
{
    match parse_some_data(body) {
        Option::Some(d) => Some(SomeExampleJson { some_data: d }),
        Option::None => None,
    }
}

} // verus!
