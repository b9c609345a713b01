use qdrant_warp::chats::{chat, chat_from, chats, chats_from, offset_of, points_reply, scroll_chats};
use qdrant_warp::json::{decimal_text, Json};
use qdrant_warp::qdrant::{qdrant_path, qdrant_post, Config, Method, Outbound};
use qdrant_warp::reply::error_reply;
use qdrant_warp::search::{by_ip_request, filter_clause, group_search_request, result_reply, search_request};
use qdrant_warp::util::{
    allocate, counter_read_request, embedding_request, embedding_vector, next_id, next_id_reply,
    read_counter,
};
use qdrant_warp::error::AppError;

fn cfg() -> Config {
    Config {
        qdrant_url: Some("http://db:6333".to_string()),
        qdrant_key: Some("k3y".to_string()),
        embedding_url: Some("http://embed/v1".to_string()),
    }
}

fn obj(members: Vec<(&str, Json)>) -> Json {
    Json::Object(members.into_iter().map(|(k, v)| (k.to_string(), v)).collect())
}

fn text(t: &str) -> Json {
    Json::Str(t.to_string())
}

fn body_text(o: &Outbound) -> String {
    o.body.as_ref().unwrap().to_text()
}

fn counter_reply(sc: Json) -> Json {
    obj(vec![("result", Json::Array(vec![obj(vec![("id", Json::Int(1)), ("payload", obj(vec![("sc", sc)]))])]))])
}

#[test]
fn search_without_filter_has_no_filter_clause() {
    let o = search_request(&cfg(), Json::Array(vec![Json::Int(1)]), &vec![]).unwrap();
    assert_eq!(o.method, Method::Post);
    assert_eq!(o.url, "http://db:6333/collections/i/points/search");
    assert_eq!(o.api_key.as_deref(), Some("k3y"));
    assert_eq!(body_text(&o), r#"{"vector":[1],"limit":7,"with_payload":["m","u"]}"#);
    assert!(o.body.as_ref().unwrap().get("filter").is_none());
}

#[test]
fn search_with_filter_has_one_condition_per_key() {
    let f = vec![("c".to_string(), text("m")), ("u".to_string(), Json::Int(1))];
    let o = search_request(&cfg(), Json::Array(vec![]), &f).unwrap();
    assert_eq!(
        body_text(&o),
        r#"{"vector":[],"limit":7,"with_payload":["m","u"],"filter":{"must":[{"key":"c","match":{"value":"m"}},{"key":"u","match":{"value":1}}]}}"#
    );
    assert_eq!(filter_clause(&vec![]).to_text(), r#"{"must":[]}"#);
}

#[test]
fn group_search_groups_by_the_key() {
    let f = vec![("i".to_string(), text("conv"))];
    let o = group_search_request(&cfg(), Json::Array(vec![]), "i", &f).unwrap();
    assert_eq!(o.url, "http://db:6333/collections/i/points/search/group");
    assert_eq!(
        body_text(&o),
        r#"{"vector":[],"group_by":"i","limit":7,"group_size":1,"with_payload":["m","u"],"filter":{"must":[{"key":"i","match":{"value":"conv"}}]}}"#
    );
    let plain = group_search_request(&cfg(), Json::Null, "ip", &vec![]).unwrap();
    assert_eq!(
        body_text(&plain),
        r#"{"vector":null,"group_by":"ip","limit":7,"group_size":1,"with_payload":["m","u"]}"#
    );
}

#[test]
fn by_ip_has_a_fixed_shape() {
    let o = by_ip_request(&cfg(), 1700000000).unwrap();
    assert_eq!(o.url, "http://db:6333/collections/i/points/query/groups");
    assert_eq!(
        body_text(&o),
        r#"{"group_by":"ip","limit":7,"group_size":1,"order_by":[{"key":"d","order":"asc"}],"with_payload":["ip"],"filter":{"must":[{"key":"u","match":{"value":1}},{"key":"d","range":{"gte":1700000000}}]}}"#
    );
}

#[test]
fn search_results_are_relayed() {
    let reply = obj(vec![("status", text("ok")), ("result", Json::Array(vec![obj(vec![("id", Json::Int(3))])]))]);
    let r = result_reply(&reply);
    assert_eq!((r.status, r.body.as_str()), (200, r#"[{"id":3}]"#));
    let r = result_reply(&obj(vec![]));
    assert_eq!(r.body, "null");
}

#[test]
fn next_id_twice_increases_by_one() {
    let (first, write) = next_id(&cfg(), &counter_reply(Json::Int(41))).unwrap();
    assert_eq!(first, 41);
    assert_eq!(write.url, "http://db:6333/collections/i/points/payload?wait=true");
    assert_eq!(body_text(&write), r#"{"payload":{"sc":42},"points":[1]}"#);
    let stored = write.body.as_ref().unwrap().get("payload").unwrap().copy();
    let reply = obj(vec![("result", Json::Array(vec![obj(vec![("payload", stored)])]))]);
    let (second, _) = next_id(&cfg(), &reply).unwrap();
    assert_eq!(second, 42);
    assert!(second > first);
}

#[test]
fn allocated_ids_are_distinct() {
    let mut reply = counter_reply(Json::Int(0));
    let mut seen: Vec<String> = vec![];
    for _ in 0..20 {
        let (id, write) = next_id(&cfg(), &reply).unwrap();
        let text = decimal_text(id);
        assert!(!seen.contains(&text));
        seen.push(text);
        let stored = write.body.as_ref().unwrap().get("payload").unwrap().copy();
        reply = obj(vec![("result", Json::Array(vec![obj(vec![("payload", stored)])]))]);
    }
    assert_eq!(seen[19], "19");
}

#[test]
fn counter_defaults_to_zero() {
    assert_eq!(read_counter(&obj(vec![])), 0);
    assert_eq!(read_counter(&counter_reply(text("12"))), 0);
    assert_eq!(read_counter(&counter_reply(Json::Number("1.5".to_string()))), 0);
    assert_eq!(read_counter(&counter_reply(Json::Int(-3))), -3);
}

#[test]
fn counter_read_asks_for_the_counter_point() {
    let o = counter_read_request(&cfg()).unwrap();
    assert_eq!(o.url, "http://db:6333/collections/i/points");
    assert_eq!(body_text(&o), r#"{"ids":[1],"with_payload":["sc"]}"#);
}

#[test]
fn exhausted_counter_is_an_error() {
    assert_eq!(allocate(i64::MAX).err().unwrap().t, "sequence counter exhausted");
    let a = allocate(-1).unwrap();
    assert_eq!((a.id, a.next), (-1, 0));
    assert!(next_id(&cfg(), &counter_reply(Json::Int(i64::MAX))).is_err());
}

#[test]
fn next_id_reply_is_plain_text() {
    let r = next_id_reply(1234);
    assert_eq!((r.status, r.body.as_str()), (200, "1234"));
}

#[test]
fn missing_secrets_are_errors() {
    let no_url = Config { qdrant_url: None, qdrant_key: Some("k".to_string()), embedding_url: None };
    assert_eq!(qdrant_path(&no_url, "x").err().unwrap().t, "QDRANT_URL not found");
    let no_key = Config { qdrant_url: Some("http://db".to_string()), qdrant_key: None, embedding_url: None };
    assert_eq!(qdrant_path(&no_key, "x").unwrap(), "http://db/x");
    assert_eq!(qdrant_post(&no_key, "x", Json::Null).err().unwrap().t, "QDRANT_KEY not found");
    assert_eq!(embedding_request(&no_key, "hi").err().unwrap().t, "EMBEDDING_URL not found");
    assert!(search_request(&no_url, Json::Null, &vec![]).is_err());
}

#[test]
fn embedding_request_and_reply() {
    let o = embedding_request(&cfg(), "hello \"world\"").unwrap();
    assert_eq!(o.method, Method::Post);
    assert_eq!(o.url, "http://embed/v1");
    assert!(o.api_key.is_none());
    assert_eq!(body_text(&o), r#"{"input":"hello \"world\""}"#);
    let reply = obj(vec![("data", Json::Array(vec![obj(vec![(
        "embedding",
        Json::Array(vec![Json::Number("0.25".to_string()), Json::Int(2)]),
    )])]))]);
    assert_eq!(embedding_vector(&reply).unwrap().to_text(), "[0.25,2]");
    let bad = obj(vec![("data", Json::Array(vec![obj(vec![("embedding", text("x"))])]))]);
    assert_eq!(embedding_vector(&bad).err().unwrap().t, "no embedding in the reply");
    assert!(embedding_vector(&obj(vec![])).is_err());
}

#[test]
fn chat_pages_and_cursors() {
    let o = chat(&cfg(), "conv-9", 3).unwrap();
    assert_eq!(o.url, "http://db:6333/collections/i/points/scroll");
    assert_eq!(
        body_text(&o),
        r#"{"offset":14,"limit":7,"order_by":{"key":"d","direction":"desc"},"filter":{"must":[{"key":"c","match":{"value":"scm"}},{"key":"i","match":{"value":"conv-9"}}]}}"#
    );
    let o = chat_from(&cfg(), "conv-9", 1700).unwrap();
    assert_eq!(
        body_text(&o),
        r#"{"limit":7,"order_by":{"key":"d","direction":"desc","start_from":1700},"filter":{"must":[{"key":"c","match":{"value":"scm"}},{"key":"i","match":{"value":"conv-9"}}]}}"#
    );
    let o = chats(&cfg(), 1).unwrap();
    assert_eq!(
        body_text(&o),
        r#"{"offset":0,"limit":7,"order_by":{"key":"d","direction":"desc"},"filter":{"must":[{"key":"c","match":{"value":"lucid"}}]}}"#
    );
    let o = chats_from(&cfg(), -5).unwrap();
    assert_eq!(
        body_text(&o),
        r#"{"limit":7,"order_by":{"key":"d","direction":"desc","start_from":-5},"filter":{"must":[{"key":"c","match":{"value":"lucid"}}]}}"#
    );
    let o = scroll_chats(&cfg(), 2).unwrap();
    assert_eq!(body_text(&o), r#"{"offset":7,"limit":7}"#);
}

#[test]
fn page_offsets_are_checked() {
    assert_eq!(offset_of(1).unwrap(), 0);
    assert_eq!(offset_of(0).unwrap(), -7);
    assert_eq!(offset_of(i64::MAX / 7 + 1).unwrap(), (i64::MAX / 7) * 7);
    assert_eq!(offset_of(i64::MAX / 7 + 2).err().unwrap().t, "page out of range");
    assert!(offset_of(i64::MIN).is_err());
    assert!(scroll_chats(&cfg(), i64::MAX).is_err());
}

#[test]
fn listing_replies_relay_the_points() {
    let reply = obj(vec![("result", obj(vec![("points", Json::Array(vec![obj(vec![("id", Json::Int(4))])])), ("next_page_offset", Json::Null)]))]);
    let r = points_reply(&reply);
    assert_eq!((r.status, r.body.as_str()), (200, r#"[{"id":4}]"#));
    assert_eq!(points_reply(&obj(vec![])).body, "null");
}

#[test]
fn failures_collapse_to_one_answer() {
    let r = error_reply(&AppError::new_plain("QDRANT_URL not found"));
    assert_eq!(r.status, 500);
    assert_eq!(r.body, "An error occurred on our side");
}

#[test]
fn json_text_encoding() {
    assert_eq!(decimal_text(0), "0");
    assert_eq!(decimal_text(-90), "-90");
    assert_eq!(decimal_text(i64::MIN), "-9223372036854775808");
    assert_eq!(decimal_text(i64::MAX), "9223372036854775807");
    let v = obj(vec![
        ("q\"uote", text("line\nbreak \\ tab\t")),
        ("n", Json::Null),
        ("b", Json::Array(vec![Json::Bool(true), Json::Bool(false), obj(vec![])])),
    ]);
    assert_eq!(v.to_text(), r#"{"q\"uote":"line\nbreak \\ tab\t","n":null,"b":[true,false,{}]}"#);
}

#[test]
fn json_lookups() {
    let v = obj(vec![("k", Json::Int(1)), ("k", Json::Int(2)), ("s", text("x"))]);
    assert_eq!(v.get("k").unwrap().as_i64(), Some(1));
    assert!(v.get("missing").is_none());
    assert_eq!(v.get("s").unwrap().as_str(), Some("x"));
    assert!(v.at(0).is_none());
    let a = Json::Array(vec![Json::Int(5)]);
    assert_eq!(a.at(0).unwrap().as_i64(), Some(5));
    assert!(a.at(1).is_none());
    assert!(a.get("k").is_none());
}
