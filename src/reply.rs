use vstd::prelude::*;

use crate::error::AppError;
use crate::json::{encode, Json, JsonModel};

verus! {

/// What a route answers: an HTTP status and the body text.
#[derive(Debug)]
pub struct Reply {
    pub status: u16,
    pub body: String,
}

/// The one body that every internal failure is answered with.
pub open spec fn failure_text() -> Seq<char> {
    "An error occurred on our side"@
}

/// The answer to any internal failure: 500 with a fixed body, no detail.
pub fn error_reply(e: &AppError) -> (r: Reply)
    ensures
        r.status == 500,
        r.body@ == failure_text(),
{
    Reply { status: 500, body: String::from_str("An error occurred on our side") }
}

/// A reply whose body is the JSON text of `v`.
pub fn json_reply(status: u16, v: &Json) -> (r: Reply)
    ensures
        r.status == status,
        r.body@ == encode(v@),
{
    Reply { status, body: v.to_text() }
}

/// A reply whose body is plain text.
pub fn text_reply(status: u16, t: &str) -> (r: Reply)
    ensures
        r.status == status,
        r.body@ == t@,
{
    Reply { status, body: String::from_str(t) }
}

/// A JSON string.
pub fn text(s: &str) -> (r: Json)
    ensures
        r@ == JsonModel::Str(s@),
{
    Json::Str(String::from_str(s))
}

/// `v`, or `null` where it is absent.
pub open spec fn or_null(v: Option<JsonModel>) -> JsonModel {
    match v {
        Some(x) => x,
        None => JsonModel::Null,
    }
}

/// A copy of `v`, or `null` where it is absent.
pub fn copy_or_null(v: Option<&Json>) -> (r: Json)
    ensures
        r@ == or_null(
            match v {
                Some(x) => Some(x@),
                None => None,
            },
        ),
{
    match v {
        Some(x) => x.copy(),
        None => Json::Null,
    }
}

} // verus!
