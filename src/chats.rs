use vstd::prelude::*;

use crate::error::AppError;
use crate::json::{push_entry, push_item, Json, JsonModel};
use crate::qdrant::{
    configured, is_qdrant_call, missing_secret_error, qdrant_post, Config, Method, Outbound,
};
use crate::reply::{or_null, text, Reply};
use crate::search::{match_clause, match_condition};

verus! {

/// Number of points on one page of a listing.
pub const PAGE_SIZE: i64 = 7;

/// Category of the messages of a conversation.
pub const SITE_CHAT_MESSAGE_CATEGORY: &'static str = "scm";

/// Category of the points that sum up a conversation.
pub const CHAT_SUMMARY_CATEGORY: &'static str = "lucid";

/// Index of the first point of page `page` (pages count from 1).
pub open spec fn page_offset(page: int) -> int {
    (page - 1) * 7
}

/// The offset of page `page`, when it fits an `i64`.
pub fn offset_of(page: i64) -> (r: Result<i64, AppError>)
    ensures
        r is Ok <==> i64::MIN <= page_offset(page as int) <= i64::MAX,
        r matches Ok(n) ==> n == page_offset(page as int),
        r matches Err(e) ==> e.t@ == "page out of range"@,
{
    if page > i64::MIN && page - 1 >= i64::MIN / 7 && page - 1 <= i64::MAX / 7 {
        Ok((page - 1) * 7)
    } else {
        Err(AppError::new_plain("page out of range"))
    }
}

/// `{"key": "d", "direction": "desc"}`, with `start_from` when a cursor is given.
pub open spec fn newest_first(from: Option<int>) -> JsonModel {
    let base = seq![("key"@, JsonModel::Str("d"@))].push(("direction"@, JsonModel::Str("desc"@)));
    match from {
        Some(f) => JsonModel::Object(base.push(("start_from"@, JsonModel::Int(f)))),
        None => JsonModel::Object(base),
    }
}

/// `{"must": [c == category, and i == conversation when one is given]}`.
pub open spec fn listing_filter(category: Seq<char>, conversation: Option<Seq<char>>) -> JsonModel {
    let first = seq![match_condition("c"@, JsonModel::Str(category))];
    let must = match conversation {
        Some(i) => first.push(match_condition("i"@, JsonModel::Str(i))),
        None => first,
    };
    JsonModel::Object(seq![("must"@, JsonModel::Array(must))])
}

/// A scroll of seven points: from `offset` when one is given, newest first
/// (from the cursor `from`, when one is given) and filtered when a category
/// is given.
pub open spec fn scroll_body(
    offset: Option<int>,
    order: Option<Option<int>>,
    category: Option<Seq<char>>,
    conversation: Option<Seq<char>>,
) -> JsonModel {
    let a = match offset {
        Some(n) => seq![("offset"@, JsonModel::Int(n))].push(("limit"@, JsonModel::Int(7))),
        None => seq![("limit"@, JsonModel::Int(7))],
    };
    let b = match order {
        Some(from) => a.push(("order_by"@, newest_first(from))),
        None => a,
    };
    match category {
        Some(c) => JsonModel::Object(b.push(("filter"@, listing_filter(c, conversation)))),
        None => JsonModel::Object(b),
    }
}

fn newest_first_json(from: Option<i64>) -> (r: Json)
    ensures
        r@ == newest_first(
            match from {
                Some(f) => Some(f as int),
                None => None,
            },
        ),
{
    let mut es: Vec<(String, Json)> = Vec::new();
    push_entry(&mut es, "key", text("d"));
    push_entry(&mut es, "direction", text("desc"));
    match from {
        Some(f) => push_entry(&mut es, "start_from", Json::Int(f)),
        None => {},
    }
    Json::Object(es)
}

fn listing_filter_json(category: &str, conversation: Option<&str>) -> (r: Json)
    ensures
        r@ == listing_filter(
            category@,
            match conversation {
                Some(i) => Some(i@),
                None => None,
            },
        ),
{
    let mut must: Vec<Json> = Vec::new();
    push_item(&mut must, match_clause("c", text(category)));
    match conversation {
        Some(i) => push_item(&mut must, match_clause("i", text(i))),
        None => {},
    }
    let mut es: Vec<(String, Json)> = Vec::new();
    push_entry(&mut es, "must", Json::Array(must));
    Json::Object(es)
}

/// The scroll call for a listing; see `scroll_body`.
fn scroll_request(
    cfg: &Config,
    offset: Option<i64>,
    order: Option<Option<i64>>,
    category: Option<&str>,
    conversation: Option<&str>,
) -> (r: Result<Outbound, AppError>)
    ensures
        r is Ok <==> configured(*cfg),
        r matches Ok(o) ==> is_qdrant_call(
            o,
            *cfg,
            Method::Post,
            "collections/i/points/scroll"@,
            Some(
                scroll_body(
                    match offset {
                        Some(n) => Some(n as int),
                        None => None,
                    },
                    match order {
                        Some(Some(f)) => Some(Some(f as int)),
                        Some(None) => Some(None),
                        None => None,
                    },
                    match category {
                        Some(c) => Some(c@),
                        None => None,
                    },
                    match conversation {
                        Some(i) => Some(i@),
                        None => None,
                    },
                ),
            ),
        ),
        r matches Err(e) ==> missing_secret_error(*cfg, e),
{
    let mut es: Vec<(String, Json)> = Vec::new();
    match offset {
        Some(n) => push_entry(&mut es, "offset", Json::Int(n)),
        None => {},
    }
    push_entry(&mut es, "limit", Json::Int(PAGE_SIZE));
    match order {
        Some(from) => push_entry(&mut es, "order_by", newest_first_json(from)),
        None => {},
    }
    match category {
        Some(c) => push_entry(&mut es, "filter", listing_filter_json(c, conversation)),
        None => {},
    }
    qdrant_post(cfg, "collections/i/points/scroll", Json::Object(es))
}

/// Page `page` of all points, in the store's order.
pub fn scroll_chats(cfg: &Config, page: i64) -> (r: Result<Outbound, AppError>)
    ensures
        r is Ok <==> configured(*cfg) && i64::MIN <= page_offset(page as int) <= i64::MAX,
        r matches Ok(o) ==> is_qdrant_call(
            o,
            *cfg,
            Method::Post,
            "collections/i/points/scroll"@,
            Some(scroll_body(Some(page_offset(page as int)), None, None, None)),
        ),
        r matches Err(e) ==> if i64::MIN <= page_offset(page as int) <= i64::MAX {
            missing_secret_error(*cfg, e)
        } else {
            e.t@ == "page out of range"@
        },
{
    let offset = offset_of(page)?;
    scroll_request(cfg, Some(offset), None, None, None)
}

/// Page `page` of conversation summaries, newest first.
pub fn chats(cfg: &Config, page: i64) -> (r: Result<Outbound, AppError>)
    ensures
        r is Ok <==> configured(*cfg) && i64::MIN <= page_offset(page as int) <= i64::MAX,
        r matches Ok(o) ==> is_qdrant_call(
            o,
            *cfg,
            Method::Post,
            "collections/i/points/scroll"@,
            Some(
                scroll_body(
                    Some(page_offset(page as int)),
                    Some(None),
                    Some(CHAT_SUMMARY_CATEGORY@),
                    None,
                ),
            ),
        ),
        r matches Err(e) ==> if i64::MIN <= page_offset(page as int) <= i64::MAX {
            missing_secret_error(*cfg, e)
        } else {
            e.t@ == "page out of range"@
        },
{
    let offset = offset_of(page)?;
    scroll_request(cfg, Some(offset), Some(None), Some(CHAT_SUMMARY_CATEGORY), None)
}

/// Conversation summaries newest first, from the cursor `from` on.
pub fn chats_from(cfg: &Config, from: i64) -> (r: Result<Outbound, AppError>)
    ensures
        r is Ok <==> configured(*cfg),
        r matches Ok(o) ==> is_qdrant_call(
            o,
            *cfg,
            Method::Post,
            "collections/i/points/scroll"@,
            Some(scroll_body(None, Some(Some(from as int)), Some(CHAT_SUMMARY_CATEGORY@), None)),
        ),
        r matches Err(e) ==> missing_secret_error(*cfg, e),
{
    scroll_request(cfg, None, Some(Some(from)), Some(CHAT_SUMMARY_CATEGORY), None)
}

/// Page `page` of the messages of conversation `id`, newest first.
pub fn chat(cfg: &Config, id: &str, page: i64) -> (r: Result<Outbound, AppError>)
    ensures
        r is Ok <==> configured(*cfg) && i64::MIN <= page_offset(page as int) <= i64::MAX,
        r matches Ok(o) ==> is_qdrant_call(
            o,
            *cfg,
            Method::Post,
            "collections/i/points/scroll"@,
            Some(
                scroll_body(
                    Some(page_offset(page as int)),
                    Some(None),
                    Some(SITE_CHAT_MESSAGE_CATEGORY@),
                    Some(id@),
                ),
            ),
        ),
        r matches Err(e) ==> if i64::MIN <= page_offset(page as int) <= i64::MAX {
            missing_secret_error(*cfg, e)
        } else {
            e.t@ == "page out of range"@
        },
{
    let offset = offset_of(page)?;
    scroll_request(cfg, Some(offset), Some(None), Some(SITE_CHAT_MESSAGE_CATEGORY), Some(id))
}

/// The messages of conversation `id` newest first, from the cursor `from` on.
pub fn chat_from(cfg: &Config, id: &str, from: i64) -> (r: Result<Outbound, AppError>)
    ensures
        r is Ok <==> configured(*cfg),
        r matches Ok(o) ==> is_qdrant_call(
            o,
            *cfg,
            Method::Post,
            "collections/i/points/scroll"@,
            Some(
                scroll_body(
                    None,
                    Some(Some(from as int)),
                    Some(SITE_CHAT_MESSAGE_CATEGORY@),
                    Some(id@),
                ),
            ),
        ),
        r matches Err(e) ==> missing_secret_error(*cfg, e),
{
    scroll_request(cfg, None, Some(Some(from)), Some(SITE_CHAT_MESSAGE_CATEGORY), Some(id))
}

/// The points of a scroll reply: `result.points`, or `null`.
pub open spec fn scrolled_points(reply: JsonModel) -> JsonModel {
    or_null(JsonModel::opt_field(reply.field("result"@), "points"@))
}

/// The answer to a listing: the JSON text of the points of the scroll reply.
pub fn points_reply(reply: &Json) -> (r: Reply)
    ensures
        r.status == 200,
        r.body@ == crate::json::encode(scrolled_points(reply@)),
{
    let points = match reply.get("result") {
        Some(res) => res.get("points"),
        None => None,
    };
    crate::reply::json_reply(200, &crate::reply::copy_or_null(points))
}

} // verus!
