use vstd::prelude::*;

use crate::error::AppError;
use crate::json::{
    encode, entries_view, json_view, lemma_entries_view_index, lookup, push_entry, push_item, Json,
    JsonModel,
};
use crate::qdrant::{
    configured, is_qdrant_call, missing_secret_error, qdrant_get, qdrant_post, qdrant_put, Config,
    Method, Outbound,
};
use crate::reply::{copy_or_null, or_null, text, Reply};

verus! {

/// The point in a reply to a point lookup: `result` itself when it is an
/// object, else its first element.
pub open spec fn point_of(reply: JsonModel) -> Option<JsonModel> {
    match reply.field("result"@) {
        Some(JsonModel::Object(es)) => Some(JsonModel::Object(es)),
        Some(JsonModel::Array(s)) => if s.len() > 0 {
            Some(s[0])
        } else {
            None
        },
        _ => None,
    }
}

/// The payload of the point in a reply to a point lookup, when it is an object.
pub open spec fn point_payload(reply: JsonModel) -> Option<JsonModel> {
    match JsonModel::opt_field(point_of(reply), "payload"@) {
        Some(JsonModel::Object(es)) => Some(JsonModel::Object(es)),
        _ => None,
    }
}

/// The category of a payload: its member `c`, when that is a string.
pub open spec fn category_of(p: JsonModel) -> Option<Seq<char>> {
    match p.field("c"@) {
        Some(JsonModel::Str(c)) => Some(c),
        _ => None,
    }
}

/// The payload names `user` as its owner in its member `u`.
pub open spec fn owned_by(p: JsonModel, user: Seq<char>) -> bool {
    p.field("u"@) == Some(JsonModel::Str(user))
}

pub open spec fn strings_view(v: Seq<String>) -> Seq<Seq<char>> {
    Seq::new(v.len(), |i: int| v[i]@)
}

/// The payload's category is one of the private ones.
pub open spec fn is_private(p: JsonModel, private: Seq<Seq<char>>) -> bool {
    category_of(p) matches Some(c) && private.contains(c)
}

/// Status and JSON body of a fetch by `user` of a point whose payload is
/// `payload` (`None`: no such point). A private item is shown to its owner
/// alone, and only its member `v`; any other item is shown whole.
pub open spec fn fetch_outcome(
    payload: Option<JsonModel>,
    user: Seq<char>,
    private: Seq<Seq<char>>,
) -> (int, JsonModel) {
    match payload {
        None => (404, JsonModel::Str("Not Found"@)),
        Some(p) => if is_private(p, private) {
            if owned_by(p, user) {
                (200, or_null(p.field("v"@)))
            } else {
                (401, JsonModel::Str("Unauthorized"@))
            }
        } else {
            (200, p)
        },
    }
}

pub open spec fn opt_view(v: Option<&Json>) -> Option<JsonModel> {
    match v {
        Some(x) => Some(x@),
        None => None,
    }
}

/// `{"points": [{"id": id, "payload": payload, "vector": vector}]}`.
pub open spec fn upsert_body(id: Seq<char>, payload: JsonModel, vector: JsonModel) -> JsonModel {
    JsonModel::Object(
        seq![
            (
                "points"@,
                JsonModel::Array(
                    seq![
                        JsonModel::Object(
                            seq![("id"@, JsonModel::Str(id))].push(("payload"@, payload)).push(
                                ("vector"@, vector),
                            ),
                        ),
                    ],
                ),
            ),
        ],
    )
}

/// `{"points": [id]}`.
pub open spec fn delete_body(id: Seq<char>) -> JsonModel {
    JsonModel::Object(seq![("points"@, JsonModel::Array(seq![JsonModel::Str(id)]))])
}

/// The payload that the set route stores: `{"v": value}`.
pub open spec fn set_payload(value: Seq<char>) -> JsonModel {
    JsonModel::Object(seq![("v"@, JsonModel::Str(value))])
}

/// The call that looks up the point `id`.
pub fn get_point_request(cfg: &Config, id: &str) -> (r: Result<Outbound, AppError>)
    ensures
        r is Ok <==> configured(*cfg),
        r matches Ok(o) ==> is_qdrant_call(
            o,
            *cfg,
            Method::Get,
            "collections/i/points/"@ + id@,
            None,
        ),
        r matches Err(e) ==> missing_secret_error(*cfg, e),
{
    let mut path = String::from_str("collections/i/points/");
    path.append(id);
    qdrant_get(cfg, path.as_str())
}

/// The payload of the point in a reply to a point lookup.
pub fn get_point_payload(reply: &Json) -> (r: Option<&Json>)
    ensures
        opt_view(r) == point_payload(reply@),
{
    let point = match reply.get("result") {
        Some(res) => if res.is_object() {
            Some(res)
        } else {
            res.at(0)
        },
        None => None,
    };
    match point {
        Some(pt) => match pt.get("payload") {
            Some(p) => if p.is_object() {
                Some(p)
            } else {
                None
            },
            None => None,
        },
        None => None,
    }
}

/// Whether `c` is one of the private categories.
pub fn is_private_category(c: &str, private: &Vec<String>) -> (r: bool)
    ensures
        r == strings_view(private@).contains(c@),
{
    let k = String::from_str(c);
    let mut i: usize = 0;
    while i < private.len()
        invariant
            0 <= i <= private@.len(),
            k@ == c@,
            forall|j: int| 0 <= j < i ==> private@[j]@ != c@,
        decreases private@.len() - i,
    {
        if private[i] == k {
            assert(strings_view(private@)[i as int] == c@);
            return true;
        }
        i = i + 1;
    }
    assert forall|j: int| 0 <= j < strings_view(private@).len() implies strings_view(
        private@,
    )[j] != c@ by {
        assert(strings_view(private@)[j] == private@[j]@);
    }
    false
}

/// Whether the payload names `user` as its owner.
pub fn is_owner(p: &Json, user: &str) -> (r: bool)
    ensures
        r == owned_by(p@, user@),
{
    match p.get("u") {
        Some(u) => match u {
            Json::Str(s) => {
                let k = String::from_str(user);
                *s == k
            },
            _ => false,
        },
        None => false,
    }
}

/// The answer to a fetch by `user` of a point whose payload is `payload`.
pub fn fetch_reply(payload: Option<&Json>, user: &str, private: &Vec<String>) -> (r: Reply)
    ensures
        r.status as int == fetch_outcome(opt_view(payload), user@, strings_view(private@)).0,
        r.body@ == encode(fetch_outcome(opt_view(payload), user@, strings_view(private@)).1),
{
    match payload {
        None => crate::reply::json_reply(404, &text("Not Found")),
        Some(p) => {
            let private_item = match p.get("c") {
                Some(c) => match c.as_str() {
                    Some(cs) => is_private_category(cs, private),
                    None => false,
                },
                None => false,
            };
            if private_item {
                if is_owner(p, user) {
                    crate::reply::json_reply(200, &copy_or_null(p.get("v")))
                } else {
                    crate::reply::json_reply(401, &text("Unauthorized"))
                }
            } else {
                crate::reply::json_reply(200, p)
            }
        },
    }
}


/// The delete of a point whose payload is `payload` (`None`: no such point)
/// by `user` removes it: only its owner's does.
pub open spec fn removes(payload: Option<JsonModel>, user: Seq<char>) -> bool {
    payload matches Some(p) && owned_by(p, user)
}

/// The status that the delete route answers with.
pub open spec fn delete_status(payload: Option<JsonModel>, user: Seq<char>) -> int {
    match payload {
        None => 404,
        Some(p) => if owned_by(p, user) {
            200
        } else {
            401
        },
    }
}

/// What the delete route does next.
#[derive(Debug)]
pub enum DeleteStep {
    /// Make this call, then answer with `deleted_reply`.
    Remove(Outbound),
    /// Answer at once; nothing is deleted.
    Answer(Reply),
}

/// The call that deletes the point `id`.
pub fn delete_point_request(cfg: &Config, id: &str) -> (r: Result<Outbound, AppError>)
    ensures
        r is Ok <==> configured(*cfg),
        r matches Ok(o) ==> is_qdrant_call(
            o,
            *cfg,
            Method::Post,
            "collections/i/points/delete"@,
            Some(delete_body(id@)),
        ),
        r matches Err(e) ==> missing_secret_error(*cfg, e),
{
    let mut points: Vec<Json> = Vec::new();
    push_item(&mut points, text(id));
    let mut es: Vec<(String, Json)> = Vec::new();
    push_entry(&mut es, "points", Json::Array(points));
    qdrant_post(cfg, "collections/i/points/delete", Json::Object(es))
}

/// The delete of point `id` by `user`, whose payload is `payload` (`None`:
/// no such point). Only the owner's delete goes through; anyone else is
/// refused with 401, and an absent point is answered with 404.
pub fn handle_delete(cfg: &Config, payload: Option<&Json>, id: &str, user: &str) -> (r: Result<
    DeleteStep,
    AppError,
>)
    ensures
        payload is None ==> (r matches Ok(DeleteStep::Answer(a)) && a.status == 404 && a.body@
            == "Not Found"@),
        (payload matches Some(p) && !owned_by(p@, user@)) ==> (r matches Ok(DeleteStep::Answer(a))
            && a.status == 401 && a.body@ == "Unauthorized"@),
        (payload matches Some(p) && owned_by(p@, user@)) ==> (r is Ok <==> configured(*cfg)),
        (payload matches Some(p) && owned_by(p@, user@)) ==> (r is Ok ==> (r matches Ok(
            DeleteStep::Remove(o),
        ) && is_qdrant_call(
            o,
            *cfg,
            Method::Post,
            "collections/i/points/delete"@,
            Some(delete_body(id@)),
        ))),
        r matches Ok(DeleteStep::Answer(a)) ==> !removes(opt_view(payload), user@) && a.status as int
            == delete_status(opt_view(payload), user@),
        r matches Ok(DeleteStep::Remove(_)) ==> removes(opt_view(payload), user@),
        r matches Err(e) ==> missing_secret_error(*cfg, e),
{
    match payload {
        None => Ok(DeleteStep::Answer(crate::reply::text_reply(404, "Not Found"))),
        Some(p) => {
            if is_owner(p, user) {
                let o = delete_point_request(cfg, id)?;
                Ok(DeleteStep::Remove(o))
            } else {
                Ok(DeleteStep::Answer(crate::reply::text_reply(401, "Unauthorized")))
            }
        },
    }
}

/// The answer once the owner's delete call went through.
pub fn deleted_reply() -> (r: Reply)
    ensures
        r.status == 200,
        r.body@ == "Deleted"@,
{
    crate::reply::text_reply(200, "Deleted")
}

/// The call that writes the point `id` with `payload` and `vector`, replacing
/// any point of that id.
pub fn upsert_request(cfg: &Config, id: &str, payload: Json, vector: Json) -> (r: Result<
    Outbound,
    AppError,
>)
    ensures
        r is Ok <==> configured(*cfg),
        r matches Ok(o) ==> is_qdrant_call(
            o,
            *cfg,
            Method::Put,
            "collections/i/points?wait=true"@,
            Some(upsert_body(id@, payload@, vector@)),
        ),
        r matches Err(e) ==> missing_secret_error(*cfg, e),
{
    let mut point: Vec<(String, Json)> = Vec::new();
    push_entry(&mut point, "id", text(id));
    push_entry(&mut point, "payload", payload);
    push_entry(&mut point, "vector", vector);
    let mut points: Vec<Json> = Vec::new();
    push_item(&mut points, Json::Object(point));
    let mut es: Vec<(String, Json)> = Vec::new();
    push_entry(&mut es, "points", Json::Array(points));
    qdrant_put(cfg, "collections/i/points?wait=true", Json::Object(es))
}

/// The call that stores `value` as the item `id`, with the embedding
/// `vector` of `value`.
pub fn set_request(cfg: &Config, id: &str, value: &str, vector: Json) -> (r: Result<Outbound, AppError>)
    ensures
        r is Ok <==> configured(*cfg),
        r matches Ok(o) ==> is_qdrant_call(
            o,
            *cfg,
            Method::Put,
            "collections/i/points?wait=true"@,
            Some(upsert_body(id@, set_payload(value@), vector@)),
        ),
        r matches Err(e) ==> missing_secret_error(*cfg, e),
{
    let mut es: Vec<(String, Json)> = Vec::new();
    push_entry(&mut es, "v", text(value));
    upsert_request(cfg, id, Json::Object(es), vector)
}

/// The answer of the set route once its write went through: whether the
/// item existed before decides between an update and an insert.
pub fn set_reply(existed: bool) -> (r: Reply)
    ensures
        existed ==> r.status == 200 && r.body@ == "Updated"@,
        !existed ==> r.status == 201 && r.body@ == "Inserted"@,
{
    if existed {
        crate::reply::text_reply(200, "Updated")
    } else {
        crate::reply::text_reply(201, "Inserted")
    }
}

/// The members `es` with `key` set to `v`: in place where a member of that
/// name exists, else added at the end.
pub open spec fn set_member(
    es: Seq<(Seq<char>, JsonModel)>,
    key: Seq<char>,
    v: JsonModel,
) -> Seq<(Seq<char>, JsonModel)> {
    if exists|i: int| 0 <= i < es.len() && #[trigger] es[i].0 == key {
        Seq::new(es.len(), |i: int| if es[i].0 == key { (key, v) } else { es[i] })
    } else {
        es.push((key, v))
    }
}

/// The payload that the create route stores: the submitted members, with
/// the caller's address as member `a` when it is known.
pub open spec fn created_payload(
    es: Seq<(Seq<char>, JsonModel)>,
    addr: Option<Seq<char>>,
) -> JsonModel {
    match addr {
        Some(a) => JsonModel::Object(set_member(es, "a"@, JsonModel::Str(a))),
        None => JsonModel::Object(es),
    }
}

/// The members `es` with `key` set to a string.
fn with_member(es: &Vec<(String, Json)>, key: &str, v: &str) -> (r: Vec<(String, Json)>)
    ensures
        entries_view(r@) == set_member(entries_view(es@), key@, JsonModel::Str(v@)),
{
    let ghost ev = entries_view(es@);
    proof {
        lemma_entries_view_index(es@);
    }
    let k = String::from_str(key);
    let mut out: Vec<(String, Json)> = Vec::new();
    let mut found = false;
    let mut i: usize = 0;
    while i < es.len()
        invariant
            0 <= i <= es@.len(),
            k@ == key@,
            ev == entries_view(es@),
            ev.len() == es@.len(),
            forall|j: int| 0 <= j < es@.len() ==> #[trigger] ev[j] == (es@[j].0@, json_view(es@[j].1)),
            entries_view(out@) =~= Seq::new(
                i as nat,
                |j: int|
                    if ev[j].0 == key@ {
                        (key@, JsonModel::Str(v@))
                    } else {
                        ev[j]
                    },
            ),
            found <==> exists|j: int| 0 <= j < i && #[trigger] ev[j].0 == key@,
        decreases es@.len() - i,
    {
        if es[i].0 == k {
            assert(ev[i as int].0 == key@);
            push_entry(&mut out, key, text(v));
            found = true;
        } else {
            assert(ev[i as int].0 != key@);
            push_entry(&mut out, es[i].0.as_str(), es[i].1.copy());
        }
        i = i + 1;
    }
    if !found {
        push_entry(&mut out, key, text(v));
        assert(entries_view(out@) =~= ev.push((key@, JsonModel::Str(v@))));
    }
    out
}

/// The text whose embedding is stored with a created item: the JSON text of
/// the submitted payload.
pub fn create_text(payload: &Json) -> (r: String)
    ensures
        r@ == encode(payload@),
{
    payload.to_text()
}

/// The call that stores a submitted payload as the item `id`, with the
/// caller's address `addr` attached and the embedding `vector` of
/// `create_text(payload)`. A payload that is not an object is refused.
pub fn create_request(
    cfg: &Config,
    id: &str,
    payload: &Json,
    addr: Option<&str>,
    vector: Json,
) -> (r: Result<Outbound, AppError>)
    ensures
        r is Ok <==> configured(*cfg) && payload@ is Object,
        r matches Ok(o) ==> is_qdrant_call(
            o,
            *cfg,
            Method::Put,
            "collections/i/points?wait=true"@,
            Some(
                upsert_body(
                    id@,
                    created_payload(
                        payload@->Object_0,
                        match addr {
                            Some(a) => Some(a@),
                            None => None,
                        },
                    ),
                    vector@,
                ),
            ),
        ),
        r matches Err(e) ==> (payload@ is Object ==> missing_secret_error(*cfg, e)),
        r matches Err(e) ==> (payload@ !is Object ==> e.t@ == "payload is not an object"@),
{
    match payload {
        Json::Object(es) => {
            let stored = match addr {
                Some(a) => Json::Object(with_member(es, "a", a)),
                None => payload.copy(),
            };
            upsert_request(cfg, id, stored, vector)
        },
        _ => Err(AppError::new_plain("payload is not an object")),
    }
}

/// The answer once an item was created: 201 with its id.
pub fn created_reply(id: &str) -> (r: Reply)
    ensures
        r.status == 201,
        r.body@ == id@,
{
    crate::reply::text_reply(201, id)
}

/// One exchange of a conversation: the user's message and the assistant's
/// answer, each with its timestamp, under the conversation id `i`.
#[derive(Debug)]
pub struct Add {
    /// The assistant's message.
    pub a: String,
    /// The user's message.
    pub u: String,
    /// Timestamp of the assistant's message.
    pub ad: String,
    /// Timestamp of the user's message.
    pub ud: String,
    /// Conversation id.
    pub i: String,
    pub p: String,
}

/// The member `key` of `j` when it is a string.
pub open spec fn text_member(j: JsonModel, key: Seq<char>) -> Option<Seq<char>> {
    match j.field(key) {
        Some(JsonModel::Str(t)) => Some(t),
        _ => None,
    }
}

/// `j` is an exchange: an object whose members `a`, `u`, `ad`, `ud`, `i` and
/// `p` are strings (other members are ignored).
pub open spec fn is_exchange(j: JsonModel) -> bool {
    &&& text_member(j, "a"@) is Some
    &&& text_member(j, "u"@) is Some
    &&& text_member(j, "ad"@) is Some
    &&& text_member(j, "ud"@) is Some
    &&& text_member(j, "i"@) is Some
    &&& text_member(j, "p"@) is Some
}

fn string_member(j: &Json, key: &str) -> (r: Option<String>)
    ensures
        r matches Some(t) ==> text_member(j@, key@) == Some(t@),
        r is None ==> text_member(j@, key@) is None,
{
    match j.get(key) {
        Some(Json::Str(t)) => Some(t.clone()),
        _ => None,
    }
}

/// The exchange that a request body describes, if it is one.
pub fn add_from_json(j: &Json) -> (r: Option<Add>)
    ensures
        r is Some <==> is_exchange(j@),
        r matches Some(s) ==> {
            &&& Some(s.a@) == text_member(j@, "a"@)
            &&& Some(s.u@) == text_member(j@, "u"@)
            &&& Some(s.ad@) == text_member(j@, "ad"@)
            &&& Some(s.ud@) == text_member(j@, "ud"@)
            &&& Some(s.i@) == text_member(j@, "i"@)
            &&& Some(s.p@) == text_member(j@, "p"@)
        },
{
    let a = string_member(j, "a")?;
    let u = string_member(j, "u")?;
    let ad = string_member(j, "ad")?;
    let ud = string_member(j, "ud")?;
    let i = string_member(j, "i")?;
    let p = string_member(j, "p")?;
    Some(Add { a, u, ad, ud, i, p })
}

/// The payload of the user's point: role `u` 1, the caller's address `a`
/// when it is known, the message, category `m`, conversation, `p` and time.
pub open spec fn user_payload(s: Add, addr: Option<Seq<char>>) -> JsonModel {
    let head = seq![("u"@, JsonModel::Int(1))];
    let head = match addr {
        Some(a) => head.push(("a"@, JsonModel::Str(a))),
        None => head,
    };
    JsonModel::Object(
        head.push(("m"@, JsonModel::Str(s.u@))).push(("c"@, JsonModel::Str("m"@))).push(
            ("i"@, JsonModel::Str(s.i@)),
        ).push(("p"@, JsonModel::Str(s.p@))).push(("d"@, JsonModel::Str(s.ud@))),
    )
}

/// The payload of the assistant's point: role `u` 0, the message, category
/// `m`, conversation, `p` and time.
pub open spec fn assistant_payload(s: Add) -> JsonModel {
    JsonModel::Object(
        seq![("u"@, JsonModel::Int(0))].push(("m"@, JsonModel::Str(s.a@))).push(
            ("c"@, JsonModel::Str("m"@)),
        ).push(("i"@, JsonModel::Str(s.i@))).push(("p"@, JsonModel::Str(s.p@))).push(
            ("d"@, JsonModel::Str(s.ad@)),
        ),
    )
}

/// The two writes of one exchange: the user's point `user_id` with the
/// embedding `user_vector` of `s.u`, and the assistant's point
/// `assistant_id` with the embedding `assistant_vector` of `s.a`.
pub fn add_requests(
    cfg: &Config,
    s: &Add,
    addr: Option<&str>,
    user_id: &str,
    assistant_id: &str,
    user_vector: Json,
    assistant_vector: Json,
) -> (r: Result<(Outbound, Outbound), AppError>)
    ensures
        r is Ok <==> configured(*cfg),
        r matches Ok((o1, o2)) ==> is_qdrant_call(
            o1,
            *cfg,
            Method::Put,
            "collections/i/points?wait=true"@,
            Some(
                upsert_body(
                    user_id@,
                    user_payload(
                        *s,
                        match addr {
                            Some(a) => Some(a@),
                            None => None,
                        },
                    ),
                    user_vector@,
                ),
            ),
        ) && is_qdrant_call(
            o2,
            *cfg,
            Method::Put,
            "collections/i/points?wait=true"@,
            Some(upsert_body(assistant_id@, assistant_payload(*s), assistant_vector@)),
        ),
        r matches Err(e) ==> missing_secret_error(*cfg, e),
{
    let mut up: Vec<(String, Json)> = Vec::new();
    push_entry(&mut up, "u", Json::Int(1));
    match addr {
        Some(a) => push_entry(&mut up, "a", text(a)),
        None => {},
    }
    push_entry(&mut up, "m", text(s.u.as_str()));
    push_entry(&mut up, "c", text("m"));
    push_entry(&mut up, "i", text(s.i.as_str()));
    push_entry(&mut up, "p", text(s.p.as_str()));
    push_entry(&mut up, "d", text(s.ud.as_str()));
    let mut ap: Vec<(String, Json)> = Vec::new();
    push_entry(&mut ap, "u", Json::Int(0));
    push_entry(&mut ap, "m", text(s.a.as_str()));
    push_entry(&mut ap, "c", text("m"));
    push_entry(&mut ap, "i", text(s.i.as_str()));
    push_entry(&mut ap, "p", text(s.p.as_str()));
    push_entry(&mut ap, "d", text(s.ad.as_str()));
    let o1 = upsert_request(cfg, user_id, Json::Object(up), user_vector)?;
    let o2 = upsert_request(cfg, assistant_id, Json::Object(ap), assistant_vector)?;
    Ok((o1, o2))
}


/// The payload that a write with body `body` stores: that of its first point.
pub open spec fn stored_payload(body: JsonModel) -> Option<JsonModel> {
    JsonModel::opt_field(JsonModel::opt_at(body.field("points"@), 0), "payload"@)
}

/// A fetch of an item right after the set route stored `value` under its id
/// answers 200 with a payload whose `v` is `value`, whoever fetches it.
pub proof fn lemma_fetch_after_set(
    id: Seq<char>,
    value: Seq<char>,
    vector: JsonModel,
    viewer: Seq<char>,
    private: Seq<Seq<char>>,
)
    ensures
        stored_payload(upsert_body(id, set_payload(value), vector)) == Some(set_payload(value)),
        fetch_outcome(Some(set_payload(value)), viewer, private) == (200int, set_payload(value)),
        set_payload(value).field("v"@) == Some(JsonModel::Str(value)),
{
    reveal_strlit("v");
    reveal_strlit("c");
    reveal_strlit("id");
    reveal_strlit("payload");
    let point = JsonModel::Object(
        seq![("id"@, JsonModel::Str(id))].push(("payload"@, set_payload(value))).push(
            ("vector"@, vector),
        ),
    );
    let es = seq![("id"@, JsonModel::Str(id))].push(("payload"@, set_payload(value))).push(
        ("vector"@, vector),
    );
    assert("id"@.len() == 2 && "payload"@.len() == 7);
    assert(es[0].0 != "payload"@);
    crate::json::lemma_lookup_first(es, "payload"@, 1);
    assert(point.field("payload"@) == Some(set_payload(value)));
    let ps = seq![("v"@, JsonModel::Str(value))];
    assert("v"@[0] == 'v' && "c"@[0] == 'c');
    assert(ps[0].0 != "c"@);
    crate::json::lemma_lookup_first(ps, "c"@, 1);
}

/// A delete by someone other than the owner is refused with 401 and removes
/// nothing: the item is still there to fetch.
pub proof fn lemma_delete_by_other(
    p: JsonModel,
    user: Seq<char>,
    viewer: Seq<char>,
    private: Seq<Seq<char>>,
)
    requires
        !owned_by(p, user),
    ensures
        delete_status(Some(p), user) == 401,
        !removes(Some(p), user),
        fetch_outcome(Some(p), viewer, private).0 != 404,
{
}

/// A delete by the owner removes the item and answers 200; a fetch
/// afterwards, finding no point, answers 404.
pub proof fn lemma_delete_by_owner(
    p: JsonModel,
    user: Seq<char>,
    viewer: Seq<char>,
    private: Seq<Seq<char>>,
)
    requires
        owned_by(p, user),
    ensures
        delete_status(Some(p), user) == 200,
        removes(Some(p), user),
        fetch_outcome(None, viewer, private).0 == 404,
{
}


/// Setting one member leaves every other member as it was.
pub proof fn lemma_set_member_keeps_others(
    es: Seq<(Seq<char>, JsonModel)>,
    key: Seq<char>,
    v: JsonModel,
    other: Seq<char>,
)
    requires
        other != key,
    ensures
        lookup(set_member(es, key, v), other) == lookup(es, other),
{
    if exists|i: int| 0 <= i < es.len() && #[trigger] es[i].0 == key {
        let t = set_member(es, key, v);
        assert forall|i: int| 0 <= i < es.len() implies #[trigger] es[i].0 == t[i].0 by {}
        assert forall|i: int| 0 <= i < es.len() && #[trigger] es[i].0 == other implies es[i].1
            == t[i].1 by {}
        crate::json::lemma_lookup_agree(es, t, other);
    } else {
        crate::json::lemma_lookup_push(es, (key, v), other);
    }
}

/// A fetch right after the create route stored a payload answers 200 to its
/// owner, or to anyone when its category is not private, and shows the
/// submitted `v`: as the whole answer for a private item, as the member `v`
/// of the payload otherwise.
pub proof fn lemma_fetch_after_create(
    es: Seq<(Seq<char>, JsonModel)>,
    addr: Option<Seq<char>>,
    viewer: Seq<char>,
    private: Seq<Seq<char>>,
)
    requires
        owned_by(JsonModel::Object(es), viewer) || !is_private(JsonModel::Object(es), private),
    ensures
        fetch_outcome(Some(created_payload(es, addr)), viewer, private).0 == 200,
        is_private(JsonModel::Object(es), private) ==> fetch_outcome(
            Some(created_payload(es, addr)),
            viewer,
            private,
        ).1 == or_null(lookup(es, "v"@)),
        !is_private(JsonModel::Object(es), private) ==> fetch_outcome(
            Some(created_payload(es, addr)),
            viewer,
            private,
        ).1.field("v"@) == lookup(es, "v"@),
{
    reveal_strlit("a");
    reveal_strlit("c");
    reveal_strlit("u");
    reveal_strlit("v");
    assert("a"@[0] == 'a' && "c"@[0] == 'c' && "u"@[0] == 'u' && "v"@[0] == 'v');
    assert("a"@ != "c"@ && "a"@ != "u"@ && "a"@ != "v"@);
    if let Some(a) = addr {
        lemma_set_member_keeps_others(es, "a"@, JsonModel::Str(a), "c"@);
        lemma_set_member_keeps_others(es, "a"@, JsonModel::Str(a), "u"@);
        lemma_set_member_keeps_others(es, "a"@, JsonModel::Str(a), "v"@);
    }
}

} // verus!
