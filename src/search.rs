use vstd::prelude::*;

use crate::error::AppError;
use crate::json::{
    entries_view, json_view, lemma_entries_view_index, push_entry, push_item, Json, JsonModel,
};
use crate::qdrant::{
    configured, is_qdrant_call, missing_secret_error, qdrant_post, Config, Method, Outbound,
};
use crate::reply::{copy_or_null, or_null, text, Reply};

verus! {

/// Number of hits a search asks for.
pub const SEARCH_LIMIT: i64 = 7;

/// `{"key": key, "match": {"value": value}}`: an exact-match condition.
pub open spec fn match_condition(key: Seq<char>, value: JsonModel) -> JsonModel {
    let matched = JsonModel::Object(seq![("value"@, value)]);
    JsonModel::Object(seq![("key"@, JsonModel::Str(key))].push(("match"@, matched)))
}

/// One exact-match condition per member of `f`, in order.
pub open spec fn must_clauses(f: Seq<(Seq<char>, JsonModel)>) -> Seq<JsonModel> {
    Seq::new(f.len(), |i: int| match_condition(f[i].0, f[i].1))
}

/// `{"must": [...]}` over the members of `f`.
pub open spec fn filter_model(f: Seq<(Seq<char>, JsonModel)>) -> JsonModel {
    JsonModel::Object(seq![("must"@, JsonModel::Array(must_clauses(f)))])
}

/// The members `base`, followed by a `filter` member only when `f` is not empty.
pub open spec fn with_filter(
    base: Seq<(Seq<char>, JsonModel)>,
    f: Seq<(Seq<char>, JsonModel)>,
) -> JsonModel {
    if f.len() == 0 {
        JsonModel::Object(base)
    } else {
        JsonModel::Object(base.push(("filter"@, filter_model(f))))
    }
}

/// The payload fields that a search returns: `["m", "u"]`.
pub open spec fn search_fields() -> JsonModel {
    JsonModel::Array(seq![JsonModel::Str("m"@)].push(JsonModel::Str("u"@)))
}

/// `{"vector": .., "limit": 7, "with_payload": ["m", "u"]}` with the filter of `f`.
pub open spec fn search_body(vector: JsonModel, f: Seq<(Seq<char>, JsonModel)>) -> JsonModel {
    let base = seq![("vector"@, vector)]
        .push(("limit"@, JsonModel::Int(7)))
        .push(("with_payload"@, search_fields()));
    with_filter(base, f)
}

/// As `search_body`, grouped by `group_key` with one hit per group.
pub open spec fn group_search_body(
    vector: JsonModel,
    group_key: Seq<char>,
    f: Seq<(Seq<char>, JsonModel)>,
) -> JsonModel {
    let base = seq![("vector"@, vector)]
        .push(("group_by"@, JsonModel::Str(group_key)))
        .push(("limit"@, JsonModel::Int(7)))
        .push(("group_size"@, JsonModel::Int(1)))
        .push(("with_payload"@, search_fields()));
    with_filter(base, f)
}

/// Distinct client addresses of role-1 points from `d` on, earliest first:
/// grouped by `ip`, seven groups of one, ordered by `d`.
pub open spec fn by_ip_body(d: int) -> JsonModel {
    let order = JsonModel::Object(
        seq![("key"@, JsonModel::Str("d"@))].push(("order"@, JsonModel::Str("asc"@))),
    );
    let since = JsonModel::Object(
        seq![("key"@, JsonModel::Str("d"@))].push(
            ("range"@, JsonModel::Object(seq![("gte"@, JsonModel::Int(d))])),
        ),
    );
    let must = seq![match_condition("u"@, JsonModel::Int(1))].push(since);
    let filter = JsonModel::Object(seq![("must"@, JsonModel::Array(must))]);
    JsonModel::Object(
        seq![("group_by"@, JsonModel::Str("ip"@))]
            .push(("limit"@, JsonModel::Int(7)))
            .push(("group_size"@, JsonModel::Int(1)))
            .push(("order_by"@, JsonModel::Array(seq![order])))
            .push(("with_payload"@, JsonModel::Array(seq![JsonModel::Str("ip"@)])))
            .push(("filter"@, filter)),
    )
}

/// An exact-match condition on `key`.
pub fn match_clause(key: &str, value: Json) -> (r: Json)
    ensures
        r@ == match_condition(key@, value@),
{
    let mut inner: Vec<(String, Json)> = Vec::new();
    push_entry(&mut inner, "value", value);
    let mut es: Vec<(String, Json)> = Vec::new();
    push_entry(&mut es, "key", text(key));
    push_entry(&mut es, "match", Json::Object(inner));
    Json::Object(es)
}

/// The `filter` clause for an exact-match mapping: one `must` condition per member.
pub fn filter_clause(f: &Vec<(String, Json)>) -> (r: Json)
    ensures
        r@ == filter_model(entries_view(f@)),
{
    let ghost fv = entries_view(f@);
    proof {
        lemma_entries_view_index(f@);
    }
    let mut must: Vec<Json> = Vec::new();
    let mut i: usize = 0;
    while i < f.len()
        invariant
            0 <= i <= f@.len(),
            fv == entries_view(f@),
            fv.len() == f@.len(),
            forall|k: int| 0 <= k < f@.len() ==> #[trigger] fv[k] == (f@[k].0@, json_view(f@[k].1)),
            crate::json::items_view(must@) =~= Seq::new(
                i as nat,
                |k: int| match_condition(fv[k].0, fv[k].1),
            ),
        decreases f@.len() - i,
    {
        let c = match_clause(f[i].0.as_str(), f[i].1.copy());
        push_item(&mut must, c);
        i = i + 1;
    }
    let mut es: Vec<(String, Json)> = Vec::new();
    push_entry(&mut es, "must", Json::Array(must));
    Json::Object(es)
}

fn search_fields_json() -> (r: Json)
    ensures
        r@ == search_fields(),
{
    let mut a: Vec<Json> = Vec::new();
    push_item(&mut a, text("m"));
    push_item(&mut a, text("u"));
    Json::Array(a)
}

/// Adds the `filter` member for `f` when `f` is not empty.
fn add_filter(es: &mut Vec<(String, Json)>, f: &Vec<(String, Json)>)
    ensures
        JsonModel::Object(entries_view(final(es)@)) == with_filter(
            entries_view(old(es)@),
            entries_view(f@),
        ),
{
    proof {
        lemma_entries_view_index(f@);
    }
    if f.len() > 0 {
        push_entry(es, "filter", filter_clause(f));
    }
}

/// The similarity search for `vector`, narrowed by the exact-match mapping `f`.
pub fn search_request(cfg: &Config, vector: Json, f: &Vec<(String, Json)>) -> (r: Result<
    Outbound,
    AppError,
>)
    ensures
        r is Ok <==> configured(*cfg),
        r matches Ok(o) ==> is_qdrant_call(
            o,
            *cfg,
            Method::Post,
            "collections/i/points/search"@,
            Some(search_body(vector@, entries_view(f@))),
        ),
        r matches Err(e) ==> missing_secret_error(*cfg, e),
{
    let mut es: Vec<(String, Json)> = Vec::new();
    push_entry(&mut es, "vector", vector);
    push_entry(&mut es, "limit", Json::Int(SEARCH_LIMIT));
    push_entry(&mut es, "with_payload", search_fields_json());
    add_filter(&mut es, f);
    qdrant_post(cfg, "collections/i/points/search", Json::Object(es))
}

/// The similarity search for `vector` grouped by the payload key `group_key`,
/// one hit per group, narrowed by `f`.
pub fn group_search_request(
    cfg: &Config,
    vector: Json,
    group_key: &str,
    f: &Vec<(String, Json)>,
) -> (r: Result<Outbound, AppError>)
    ensures
        r is Ok <==> configured(*cfg),
        r matches Ok(o) ==> is_qdrant_call(
            o,
            *cfg,
            Method::Post,
            "collections/i/points/search/group"@,
            Some(group_search_body(vector@, group_key@, entries_view(f@))),
        ),
        r matches Err(e) ==> missing_secret_error(*cfg, e),
{
    let mut es: Vec<(String, Json)> = Vec::new();
    push_entry(&mut es, "vector", vector);
    push_entry(&mut es, "group_by", text(group_key));
    push_entry(&mut es, "limit", Json::Int(SEARCH_LIMIT));
    push_entry(&mut es, "group_size", Json::Int(1));
    push_entry(&mut es, "with_payload", search_fields_json());
    add_filter(&mut es, f);
    qdrant_post(cfg, "collections/i/points/search/group", Json::Object(es))
}

/// The grouped query that lists distinct recent client addresses from `d` on.
pub fn by_ip_request(cfg: &Config, d: i64) -> (r: Result<Outbound, AppError>)
    ensures
        r is Ok <==> configured(*cfg),
        r matches Ok(o) ==> is_qdrant_call(
            o,
            *cfg,
            Method::Post,
            "collections/i/points/query/groups"@,
            Some(by_ip_body(d as int)),
        ),
        r matches Err(e) ==> missing_secret_error(*cfg, e),
{
    let mut order: Vec<(String, Json)> = Vec::new();
    push_entry(&mut order, "key", text("d"));
    push_entry(&mut order, "order", text("asc"));
    let mut order_by: Vec<Json> = Vec::new();
    push_item(&mut order_by, Json::Object(order));
    let mut fields: Vec<Json> = Vec::new();
    push_item(&mut fields, text("ip"));
    let mut gte: Vec<(String, Json)> = Vec::new();
    push_entry(&mut gte, "gte", Json::Int(d));
    let mut range: Vec<(String, Json)> = Vec::new();
    push_entry(&mut range, "key", text("d"));
    push_entry(&mut range, "range", Json::Object(gte));
    let mut must: Vec<Json> = Vec::new();
    push_item(&mut must, match_clause("u", Json::Int(1)));
    push_item(&mut must, Json::Object(range));
    let mut filter: Vec<(String, Json)> = Vec::new();
    push_entry(&mut filter, "must", Json::Array(must));
    let mut es: Vec<(String, Json)> = Vec::new();
    push_entry(&mut es, "group_by", text("ip"));
    push_entry(&mut es, "limit", Json::Int(SEARCH_LIMIT));
    push_entry(&mut es, "group_size", Json::Int(1));
    push_entry(&mut es, "order_by", Json::Array(order_by));
    push_entry(&mut es, "with_payload", Json::Array(fields));
    push_entry(&mut es, "filter", Json::Object(filter));
    qdrant_post(cfg, "collections/i/points/query/groups", Json::Object(es))
}


/// The answer to a search: the JSON text of the reply's `result`, or `null`.
pub fn result_reply(reply: &Json) -> (r: Reply)
    ensures
        r.status == 200,
        r.body@ == crate::json::encode(or_null(reply@.field("result"@))),
{
    crate::reply::json_reply(200, &copy_or_null(reply.get("result")))
}


/// A search body, plain or grouped, has a `filter` member exactly when the
/// exact-match mapping is not empty; the filter then holds one exact-match
/// `must` condition per member of the mapping, in order.
pub proof fn lemma_search_filter(
    vector: JsonModel,
    group_key: Seq<char>,
    f: Seq<(Seq<char>, JsonModel)>,
)
    ensures
        f.len() == 0 ==> search_body(vector, f).field("filter"@) is None,
        f.len() == 0 ==> group_search_body(vector, group_key, f).field("filter"@) is None,
        f.len() > 0 ==> search_body(vector, f).field("filter"@) == Some(filter_model(f)),
        f.len() > 0 ==> group_search_body(vector, group_key, f).field("filter"@) == Some(
            filter_model(f),
        ),
        filter_model(f) == JsonModel::Object(seq![("must"@, JsonModel::Array(must_clauses(f)))]),
        must_clauses(f).len() == f.len(),
        forall|i: int|
            0 <= i < f.len() ==> #[trigger] must_clauses(f)[i] == match_condition(f[i].0, f[i].1),
{
    reveal_strlit("filter");
    reveal_strlit("vector");
    reveal_strlit("limit");
    reveal_strlit("with_payload");
    reveal_strlit("group_by");
    reveal_strlit("group_size");
    assert("filter"@[0] == 'f' && "vector"@[0] == 'v' && "limit"@[0] == 'l');
    assert("with_payload"@[0] == 'w' && "group_by"@[0] == 'g' && "group_size"@[0] == 'g');
    assert("filter"@.len() == 6 && "group_by"@.len() == 8 && "group_size"@.len() == 10);
    let plain = seq![("vector"@, vector)].push(("limit"@, JsonModel::Int(7))).push(
        ("with_payload"@, search_fields()),
    );
    let grouped = seq![("vector"@, vector)].push(("group_by"@, JsonModel::Str(group_key))).push(
        ("limit"@, JsonModel::Int(7)),
    ).push(("group_size"@, JsonModel::Int(1))).push(("with_payload"@, search_fields()));
    let fm = ("filter"@, filter_model(f));
    assert(plain.push(fm)[3] == fm);
    assert(grouped.push(fm)[5] == fm);
    crate::json::lemma_lookup_first(plain, "filter"@, 3);
    crate::json::lemma_lookup_first(plain.push(fm), "filter"@, 3);
    crate::json::lemma_lookup_first(grouped, "filter"@, 5);
    crate::json::lemma_lookup_first(grouped.push(fm), "filter"@, 5);
}

} // verus!
