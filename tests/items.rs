use qdrant_warp::error::AppError;
use qdrant_warp::items::{
    add_from_json, add_requests, create_request, is_owner, is_private_category, create_text, created_reply, deleted_reply, fetch_reply,
    get_point_payload, get_point_request, handle_delete, set_request, set_reply, Add, DeleteStep,
};
use qdrant_warp::json::Json;
use qdrant_warp::qdrant::{Config, Method, Outbound};

fn cfg() -> Config {
    Config {
        qdrant_url: Some("http://db:6333".to_string()),
        qdrant_key: Some("k3y".to_string()),
        embedding_url: Some("http://embed/v1".to_string()),
    }
}

fn s(t: &str) -> String {
    t.to_string()
}

fn obj(members: Vec<(&str, Json)>) -> Json {
    Json::Object(members.into_iter().map(|(k, v)| (k.to_string(), v)).collect())
}

fn text(t: &str) -> Json {
    Json::Str(t.to_string())
}

fn vector() -> Json {
    Json::Array(vec![Json::Number(s("0.5")), Json::Number(s("-1.25"))])
}

fn body_text(o: &Outbound) -> String {
    o.body.as_ref().unwrap().to_text()
}

/// The payload a write stores, as the store would hand it back on a lookup.
fn stored_as_lookup_reply(o: &Outbound) -> Json {
    let body = o.body.as_ref().unwrap();
    let payload = body.get("points").unwrap().at(0).unwrap().get("payload").unwrap().copy();
    obj(vec![("result", obj(vec![("id", text("x")), ("payload", payload)]))])
}

#[test]
fn create_then_fetch_public_item() {
    let id = "3f2b8c1e-9a4d-4e2f-8b6a-1c2d3e4f5a6b";
    let payload = obj(vec![("text", text("hello"))]);
    let o = create_request(&cfg(), id, &payload, Some("1.2.3.4"), vector()).unwrap();
    assert_eq!(o.method, Method::Put);
    assert_eq!(o.url, "http://db:6333/collections/i/points?wait=true");
    assert_eq!(o.api_key.as_deref(), Some("k3y"));
    assert_eq!(
        body_text(&o),
        r#"{"points":[{"id":"3f2b8c1e-9a4d-4e2f-8b6a-1c2d3e4f5a6b","payload":{"text":"hello","a":"1.2.3.4"},"vector":[0.5,-1.25]}]}"#
    );
    let r = created_reply(id);
    assert_eq!(r.status, 201);
    assert_eq!(r.body, id);

    let reply = stored_as_lookup_reply(&o);
    let private = vec![s("private")];
    let got = fetch_reply(get_point_payload(&reply), "bob", &private);
    assert_eq!(got.status, 200);
    assert_eq!(got.body, r#"{"text":"hello","a":"1.2.3.4"}"#);
}

#[test]
fn create_then_fetch_private_item_as_another_user() {
    let payload = obj(vec![("c", text("private")), ("u", text("alice")), ("v", text("diary"))]);
    let o = create_request(&cfg(), "7", &payload, None, vector()).unwrap();
    let reply = stored_as_lookup_reply(&o);
    let private = vec![s("private")];
    let got = fetch_reply(get_point_payload(&reply), "mallory", &private);
    assert_eq!(got.status, 401);
    assert_eq!(got.body, r#""Unauthorized""#);
    let own = fetch_reply(get_point_payload(&reply), "alice", &private);
    assert_eq!(own.status, 200);
    assert_eq!(own.body, r#""diary""#);
}

#[test]
fn create_replaces_a_submitted_address() {
    let payload = obj(vec![("a", text("spoofed")), ("m", Json::Int(3))]);
    let o = create_request(&cfg(), "9", &payload, Some("10.0.0.1"), Json::Array(vec![])).unwrap();
    assert_eq!(
        body_text(&o),
        r#"{"points":[{"id":"9","payload":{"a":"10.0.0.1","m":3},"vector":[]}]}"#
    );
    let o = create_request(&cfg(), "9", &payload, None, Json::Array(vec![])).unwrap();
    assert_eq!(
        body_text(&o),
        r#"{"points":[{"id":"9","payload":{"a":"spoofed","m":3},"vector":[]}]}"#
    );
}

#[test]
fn create_refuses_a_payload_that_is_not_an_object() {
    let e = create_request(&cfg(), "1", &text("hello"), None, vector()).err().unwrap();
    assert_eq!(e.t, "payload is not an object");
}

#[test]
fn create_text_is_the_payload_json() {
    let payload = obj(vec![("text", text("hello")), ("n", Json::Int(-12))]);
    assert_eq!(create_text(&payload), r#"{"text":"hello","n":-12}"#);
}

#[test]
fn set_then_fetch_returns_the_value() {
    let o = set_request(&cfg(), "42", "new value", vector()).unwrap();
    assert_eq!(o.method, Method::Put);
    assert_eq!(
        body_text(&o),
        r#"{"points":[{"id":"42","payload":{"v":"new value"},"vector":[0.5,-1.25]}]}"#
    );
    let reply = stored_as_lookup_reply(&o);
    let got = fetch_reply(get_point_payload(&reply), "anyone", &vec![s("private")]);
    assert_eq!(got.status, 200);
    assert_eq!(got.body, r#"{"v":"new value"}"#);
}

#[test]
fn set_reply_tells_update_from_insert() {
    let u = set_reply(true);
    assert_eq!((u.status, u.body.as_str()), (200, "Updated"));
    let i = set_reply(false);
    assert_eq!((i.status, i.body.as_str()), (201, "Inserted"));
}

#[test]
fn fetch_of_missing_point_is_not_found() {
    let got = fetch_reply(None, "bob", &vec![]);
    assert_eq!(got.status, 404);
    assert_eq!(got.body, r#""Not Found""#);
    let empty = obj(vec![("result", Json::Array(vec![]))]);
    assert!(get_point_payload(&empty).is_none());
    let no_payload = obj(vec![("result", obj(vec![("id", Json::Int(1))]))]);
    assert!(get_point_payload(&no_payload).is_none());
}

#[test]
fn fetch_reads_a_point_from_a_result_list() {
    let reply = obj(vec![(
        "result",
        Json::Array(vec![obj(vec![("payload", obj(vec![("v", Json::Bool(true))]))])]),
    )]);
    let got = fetch_reply(get_point_payload(&reply), "bob", &vec![]);
    assert_eq!((got.status, got.body.as_str()), (200, r#"{"v":true}"#));
}

#[test]
fn private_item_without_value_shows_null_to_owner() {
    let p = obj(vec![("c", text("secret")), ("u", text("alice"))]);
    let got = fetch_reply(Some(&p), "alice", &vec![s("other"), s("secret")]);
    assert_eq!((got.status, got.body.as_str()), (200, "null"));
}

#[test]
fn role_flag_owner_never_matches_a_user() {
    let p = obj(vec![("c", text("secret")), ("u", Json::Int(1)), ("v", text("x"))]);
    let got = fetch_reply(Some(&p), "1", &vec![s("secret")]);
    assert_eq!(got.status, 401);
}

#[test]
fn get_point_request_names_the_point() {
    let o = get_point_request(&cfg(), "17").unwrap();
    assert_eq!(o.method, Method::Get);
    assert_eq!(o.url, "http://db:6333/collections/i/points/17");
    assert!(o.body.is_none());
}

#[test]
fn delete_by_non_owner_is_refused() {
    let p = obj(vec![("c", text("m")), ("u", text("alice")), ("v", text("x"))]);
    match handle_delete(&cfg(), Some(&p), "5", "mallory") {
        Ok(DeleteStep::Answer(a)) => {
            assert_eq!(a.status, 401);
            assert_eq!(a.body, "Unauthorized");
        }
        _ => panic!("expected a refusal"),
    }
    let still = fetch_reply(Some(&p), "mallory", &vec![]);
    assert_eq!(still.status, 200);
}

#[test]
fn delete_by_owner_removes_the_point() {
    let p = obj(vec![("c", text("m")), ("u", text("alice"))]);
    match handle_delete(&cfg(), Some(&p), "5", "alice") {
        Ok(DeleteStep::Remove(o)) => {
            assert_eq!(o.method, Method::Post);
            assert_eq!(o.url, "http://db:6333/collections/i/points/delete");
            assert_eq!(body_text(&o), r#"{"points":["5"]}"#);
        }
        _ => panic!("expected a delete call"),
    }
    let d = deleted_reply();
    assert_eq!((d.status, d.body.as_str()), (200, "Deleted"));
    let after = fetch_reply(None, "alice", &vec![]);
    assert_eq!(after.status, 404);
}

#[test]
fn delete_of_missing_point_is_not_found() {
    match handle_delete(&cfg(), None, "5", "alice") {
        Ok(DeleteStep::Answer(a)) => assert_eq!((a.status, a.body.as_str()), (404, "Not Found")),
        _ => panic!("expected not found"),
    }
}

#[test]
fn delete_without_configuration_fails() {
    let p = obj(vec![("u", text("alice"))]);
    let bare = Config { qdrant_url: None, qdrant_key: None, embedding_url: None };
    match handle_delete(&bare, Some(&p), "5", "alice") {
        Err(e) => assert_eq!(e.message(), "QDRANT_URL not found"),
        _ => panic!("expected a configuration error"),
    }
}

#[test]
fn add_writes_both_sides_of_an_exchange() {
    let a = Add {
        a: s("hi, how can I help"),
        u: s("hello"),
        ad: s("2024-05-01T10:00:01"),
        ud: s("2024-05-01T10:00:00"),
        i: s("conv-1"),
        p: s("site"),
    };
    let (o1, o2) = add_requests(&cfg(), &a, Some("1.2.3.4"), "10", "11", vector(), Json::Array(vec![]))
        .unwrap();
    assert_eq!(
        body_text(&o1),
        r#"{"points":[{"id":"10","payload":{"u":1,"a":"1.2.3.4","m":"hello","c":"m","i":"conv-1","p":"site","d":"2024-05-01T10:00:00"},"vector":[0.5,-1.25]}]}"#
    );
    assert_eq!(
        body_text(&o2),
        r#"{"points":[{"id":"11","payload":{"u":0,"m":"hi, how can I help","c":"m","i":"conv-1","p":"site","d":"2024-05-01T10:00:01"},"vector":[]}]}"#
    );
    let (o3, _) = add_requests(&cfg(), &a, None, "10", "11", vector(), vector()).unwrap();
    assert!(body_text(&o3).contains(r#"{"u":1,"m":"hello""#));
}

#[test]
fn app_error_texts() {
    assert_eq!(AppError::new("get_point request", "connection refused").t, "get_point request: connection refused");
    assert_eq!(AppError::new_plain("u not found").message(), "u not found");
}

#[test]
fn exchange_bodies_are_recognised() {
    let body = obj(vec![
        ("a", text("answer")),
        ("u", text("question")),
        ("ad", text("2")),
        ("ud", text("1")),
        ("i", text("c1")),
        ("p", text("site")),
        ("extra", Json::Int(5)),
    ]);
    let a = add_from_json(&body).unwrap();
    assert_eq!((a.a.as_str(), a.u.as_str(), a.ad.as_str()), ("answer", "question", "2"));
    assert_eq!((a.ud.as_str(), a.i.as_str(), a.p.as_str()), ("1", "c1", "site"));
    let free_form = obj(vec![("text", text("hello"))]);
    assert!(add_from_json(&free_form).is_none());
    let wrong_type = obj(vec![
        ("a", text("answer")),
        ("u", text("question")),
        ("ad", Json::Int(2)),
        ("ud", text("1")),
        ("i", text("c1")),
        ("p", text("site")),
    ]);
    assert!(add_from_json(&wrong_type).is_none());
    assert!(add_from_json(&Json::Array(vec![])).is_none());
}

#[test]
fn private_categories_and_owners() {
    let private = vec![s(""), s("diary")];
    assert!(is_private_category("", &private));
    assert!(is_private_category("diary", &private));
    assert!(!is_private_category("m", &private));
    assert!(!is_private_category("m", &vec![]));
    let p = obj(vec![("u", text("alice"))]);
    assert!(is_owner(&p, "alice"));
    assert!(!is_owner(&p, "alicia"));
    assert!(!is_owner(&obj(vec![]), "alice"));
}
