use vstd::prelude::*;

use crate::error::AppError;
use crate::json::{decimal, decimal_text, push_entry, push_item, Json, JsonModel};
use crate::qdrant::{
    configured, is_qdrant_call, missing_secret_error, qdrant_post, Config, Method, Outbound,
};
use crate::reply::{text, Reply};

verus! {

/// Id of the point whose payload field `sc` holds the sequence counter.
pub const COUNTER_POINT: i64 = 1;

/// `{"ids": [1], "with_payload": ["sc"]}`: read the counter point.
pub open spec fn counter_read_body() -> JsonModel {
    JsonModel::Object(
        seq![("ids"@, JsonModel::Array(seq![JsonModel::Int(1)]))].push(
            ("with_payload"@, JsonModel::Array(seq![JsonModel::Str("sc"@)])),
        ),
    )
}

/// `{"payload": {"sc": next}, "points": [1]}`: store `next` as the counter.
pub open spec fn counter_write_body(next: int) -> JsonModel {
    JsonModel::Object(
        seq![("payload"@, JsonModel::Object(seq![("sc"@, JsonModel::Int(next))]))].push(
            ("points"@, JsonModel::Array(seq![JsonModel::Int(1)])),
        ),
    )
}

/// The counter in a reply to the read: `result[0].payload.sc` when it is an
/// integer, else 0.
pub open spec fn counter_value(reply: JsonModel) -> int {
    match JsonModel::opt_field(
        JsonModel::opt_field(JsonModel::opt_at(reply.field("result"@), 0), "payload"@),
        "sc"@,
    ) {
        Some(JsonModel::Int(n)) => n,
        _ => 0,
    }
}

/// The reply of a read of the counter point when its payload is `payload`.
pub open spec fn stored_reply(payload: JsonModel) -> JsonModel {
    JsonModel::Object(
        seq![
            (
                "result"@,
                JsonModel::Array(seq![JsonModel::Object(seq![("payload"@, payload)])]),
            ),
        ],
    )
}

/// The payload that a counter write stores.
pub open spec fn written_payload(next: int) -> JsonModel {
    counter_write_body(next).field("payload"@)->0
}

/// The counter point's payload after `k` allocations, each reading what the
/// one before it wrote, from the payload `initial`.
pub open spec fn payload_after(initial: JsonModel, k: nat) -> JsonModel
    decreases k,
{
    if k == 0 {
        initial
    } else {
        written_payload(counter_value(stored_reply(payload_after(initial, (k - 1) as nat))) + 1)
    }
}

/// The id handed out by allocation number `k` (from 0).
pub open spec fn id_at(initial: JsonModel, k: nat) -> int {
    counter_value(stored_reply(payload_after(initial, k)))
}

/// The call that reads the counter point.
pub fn counter_read_request(cfg: &Config) -> (r: Result<Outbound, AppError>)
    ensures
        r is Ok <==> configured(*cfg),
        r matches Ok(o) ==> is_qdrant_call(
            o,
            *cfg,
            Method::Post,
            "collections/i/points"@,
            Some(counter_read_body()),
        ),
        r matches Err(e) ==> missing_secret_error(*cfg, e),
{
    let mut ids: Vec<Json> = Vec::new();
    push_item(&mut ids, Json::Int(COUNTER_POINT));
    let mut fields: Vec<Json> = Vec::new();
    push_item(&mut fields, text("sc"));
    let mut es: Vec<(String, Json)> = Vec::new();
    push_entry(&mut es, "ids", Json::Array(ids));
    push_entry(&mut es, "with_payload", Json::Array(fields));
    qdrant_post(cfg, "collections/i/points", Json::Object(es))
}

/// The counter held in a reply to the read.
pub fn read_counter(reply: &Json) -> (r: i64)
    ensures
        r == counter_value(reply@),
{
    let sc = match reply.get("result") {
        Some(res) => match res.at(0) {
            Some(point) => match point.get("payload") {
                Some(payload) => match payload.get("sc") {
                    Some(v) => v.as_i64(),
                    None => None,
                },
                None => None,
            },
            None => None,
        },
        None => None,
    };
    match sc {
        Some(n) => n,
        None => 0,
    }
}

/// The id allocated from a counter and the counter to store in its place.
#[derive(Debug, Clone, Copy, PartialEq, Eq, Structural)]
pub struct Allocation {
    pub id: i64,
    pub next: i64,
}

/// Allocates the counter's value and advances the counter by one; fails
/// when the counter cannot advance.
pub fn allocate(current: i64) -> (r: Result<Allocation, AppError>)
    ensures
        r is Ok <==> current < i64::MAX,
        r matches Ok(a) ==> a.id == current && a.next == current + 1,
        r matches Err(e) ==> e.t@ == "sequence counter exhausted"@,
{
    if current < i64::MAX {
        Ok(Allocation { id: current, next: current + 1 })
    } else {
        Err(AppError::new_plain("sequence counter exhausted"))
    }
}

/// The call that stores `next` as the counter.
pub fn counter_write_request(cfg: &Config, next: i64) -> (r: Result<Outbound, AppError>)
    ensures
        r is Ok <==> configured(*cfg),
        r matches Ok(o) ==> is_qdrant_call(
            o,
            *cfg,
            Method::Post,
            "collections/i/points/payload?wait=true"@,
            Some(counter_write_body(next as int)),
        ),
        r matches Err(e) ==> missing_secret_error(*cfg, e),
{
    let mut sc: Vec<(String, Json)> = Vec::new();
    push_entry(&mut sc, "sc", Json::Int(next));
    let mut points: Vec<Json> = Vec::new();
    push_item(&mut points, Json::Int(COUNTER_POINT));
    let mut es: Vec<(String, Json)> = Vec::new();
    push_entry(&mut es, "payload", Json::Object(sc));
    push_entry(&mut es, "points", Json::Array(points));
    qdrant_post(cfg, "collections/i/points/payload?wait=true", Json::Object(es))
}

/// From the reply to the counter read: the allocated id and the call that
/// stores the advanced counter.
pub fn next_id(cfg: &Config, reply: &Json) -> (r: Result<(i64, Outbound), AppError>)
    ensures
        r is Ok <==> configured(*cfg) && counter_value(reply@) < i64::MAX,
        r matches Ok((id, o)) ==> id == counter_value(reply@) && is_qdrant_call(
            o,
            *cfg,
            Method::Post,
            "collections/i/points/payload?wait=true"@,
            Some(counter_write_body(id + 1)),
        ),
        r matches Err(e) ==> if counter_value(reply@) >= i64::MAX {
            e.t@ == "sequence counter exhausted"@
        } else {
            missing_secret_error(*cfg, e)
        },
{
    let a = allocate(read_counter(reply))?;
    let o = counter_write_request(cfg, a.next)?;
    Ok((a.id, o))
}

/// The answer to a request for the next id: the id as plain text.
pub fn next_id_reply(id: i64) -> (r: Reply)
    ensures
        r.status == 200,
        r.body@ == decimal(id as int),
{
    Reply { status: 200, body: decimal_text(id) }
}


/// A read that follows a counter write sees the counter it stored.
pub proof fn lemma_read_after_write(next: int)
    ensures
        counter_value(stored_reply(written_payload(next))) == next,
{
    let w = counter_write_body(next);
    assert(w.field("payload"@) == Some(JsonModel::Object(seq![("sc"@, JsonModel::Int(next))])));
    let r = stored_reply(written_payload(next));
    let point = JsonModel::Object(seq![("payload"@, written_payload(next))]);
    assert(r.field("result"@) == Some(JsonModel::Array(seq![point])));
    assert(point.field("payload"@) == Some(written_payload(next)));
    assert(written_payload(next).field("sc"@) == Some(JsonModel::Int(next)));
}

/// Two allocations one after the other, the second reading what the first
/// stored, hand out ids that increase by exactly one.
pub proof fn lemma_sequential_ids(initial: JsonModel)
    ensures
        id_at(initial, 1) == id_at(initial, 0) + 1,
{
    lemma_read_after_write(id_at(initial, 0) + 1);
}

/// The id of allocation number `k` is the first id plus `k`.
pub proof fn lemma_id_at(initial: JsonModel, k: nat)
    ensures
        id_at(initial, k) == id_at(initial, 0) + k,
    decreases k,
{
    if k > 0 {
        lemma_id_at(initial, (k - 1) as nat);
        lemma_read_after_write(id_at(initial, (k - 1) as nat) + 1);
    }
}

/// Allocations one after the other never hand out the same id, nor the same
/// id text.
pub proof fn lemma_ids_distinct(initial: JsonModel, j: nat, k: nat)
    requires
        j != k,
    ensures
        id_at(initial, j) != id_at(initial, k),
        decimal(id_at(initial, j)) != decimal(id_at(initial, k)),
{
    lemma_id_at(initial, j);
    lemma_id_at(initial, k);
    if decimal(id_at(initial, j)) == decimal(id_at(initial, k)) {
        crate::json::lemma_decimal_injective(id_at(initial, j), id_at(initial, k));
    }
}


/// `{"input": t}`: the body of an embedding request.
pub open spec fn embedding_body(t: Seq<char>) -> JsonModel {
    JsonModel::Object(seq![("input"@, JsonModel::Str(t))])
}

/// The vector in a reply of the embedding service: `data[0].embedding`, when
/// it is an array.
pub open spec fn embedding_of(reply: JsonModel) -> Option<JsonModel> {
    match JsonModel::opt_field(JsonModel::opt_at(reply.field("data"@), 0), "embedding"@) {
        Some(JsonModel::Array(s)) => Some(JsonModel::Array(s)),
        _ => None,
    }
}

/// The call that asks the embedding service for the vector of `t`.
pub fn embedding_request(cfg: &Config, t: &str) -> (r: Result<Outbound, AppError>)
    ensures
        r is Ok <==> cfg.embedding_url is Some,
        r matches Ok(o) ==> o.method == Method::Post && o.url@ == cfg.embedding_url->0@
            && o.api_key is None && crate::qdrant::body_view(o.body) == Some(embedding_body(t@)),
        r matches Err(e) ==> e.t@ == "EMBEDDING_URL not found"@,
{
    match &cfg.embedding_url {
        Some(url) => {
            let mut es: Vec<(String, Json)> = Vec::new();
            push_entry(&mut es, "input", text(t));
            Ok(Outbound { method: Method::Post, url: url.clone(), api_key: None, body: Some(Json::Object(es)) })
        },
        None => Err(AppError::new_plain("EMBEDDING_URL not found")),
    }
}

/// The vector in a reply of the embedding service.
pub fn embedding_vector(reply: &Json) -> (r: Result<Json, AppError>)
    ensures
        r is Ok <==> embedding_of(reply@) is Some,
        r matches Ok(v) ==> Some(v@) == embedding_of(reply@),
        r matches Err(e) ==> e.t@ == "no embedding in the reply"@,
{
    let v = match reply.get("data") {
        Some(data) => match data.at(0) {
            Some(first) => first.get("embedding"),
            None => None,
        },
        None => None,
    };
    match v {
        Some(x) => if x.is_array() {
            Ok(x.copy())
        } else {
            Err(AppError::new_plain("no embedding in the reply"))
        },
        None => Err(AppError::new_plain("no embedding in the reply")),
    }
}

} // verus!
