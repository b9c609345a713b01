use vstd::prelude::*;

use crate::error::AppError;
use crate::json::{Json, JsonModel};

verus! {

/// The secrets that the gateway reads on every outbound call, loaded once.
#[derive(Debug)]
pub struct Config {
    /// Base URL of the vector database.
    pub qdrant_url: Option<String>,
    /// Key sent in the `api-key` header of every vector-database call.
    pub qdrant_key: Option<String>,
    /// URL of the embedding service.
    pub embedding_url: Option<String>,
}

#[derive(Debug, Clone, Copy, PartialEq, Eq, Structural)]
pub enum Method {
    Get,
    Put,
    Post,
}

/// One HTTP call for the caller to make.
#[derive(Debug)]
pub struct Outbound {
    pub method: Method,
    pub url: String,
    /// Value of the `api-key` header, when one is sent.
    pub api_key: Option<String>,
    /// JSON body, when one is sent.
    pub body: Option<Json>,
}

/// Whether both vector-database secrets are present.
pub open spec fn configured(cfg: Config) -> bool {
    cfg.qdrant_url is Some && cfg.qdrant_key is Some
}

pub open spec fn body_view(b: Option<Json>) -> Option<JsonModel> {
    match b {
        Some(j) => Some(j@),
        None => None,
    }
}

/// `o` is the call `method` on `path` under the configured base URL,
/// authenticated with the configured key, carrying `body`.
pub open spec fn is_qdrant_call(
    o: Outbound,
    cfg: Config,
    method: Method,
    path: Seq<char>,
    body: Option<JsonModel>,
) -> bool {
    &&& configured(cfg)
    &&& o.method == method
    &&& o.url@ == cfg.qdrant_url->0@ + "/"@ + path
    &&& o.api_key matches Some(k) && k@ == cfg.qdrant_key->0@
    &&& body_view(o.body) == body
}

/// The error of a call that cannot be made for a missing secret.
pub open spec fn missing_secret_error(cfg: Config, e: AppError) -> bool {
    if cfg.qdrant_url is None {
        e.t@ == "QDRANT_URL not found"@
    } else {
        e.t@ == "QDRANT_KEY not found"@
    }
}

/// The absolute URL of `path` on the vector database.
pub fn qdrant_path(cfg: &Config, path: &str) -> (r: Result<String, AppError>)
    ensures
        r is Ok <==> cfg.qdrant_url is Some,
        r matches Ok(u) ==> u@ == cfg.qdrant_url->0@ + "/"@ + path@,
        r matches Err(e) ==> e.t@ == "QDRANT_URL not found"@,
{
    match &cfg.qdrant_url {
        Some(base) => {
            let mut u = base.clone();
            u.append("/");
            u.append(path);
            Ok(u)
        },
        None => Err(AppError::new_plain("QDRANT_URL not found")),
    }
}

fn qdrant_call(cfg: &Config, method: Method, path: &str, body: Option<Json>) -> (r: Result<
    Outbound,
    AppError,
>)
    ensures
        r is Ok <==> configured(*cfg),
        r matches Ok(o) ==> is_qdrant_call(o, *cfg, method, path@, body_view(body)),
        r matches Err(e) ==> missing_secret_error(*cfg, e),
{
    let url = qdrant_path(cfg, path)?;
    match &cfg.qdrant_key {
        Some(k) => Ok(Outbound { method, url, api_key: Some(k.clone()), body }),
        None => Err(AppError::new_plain("QDRANT_KEY not found")),
    }
}

/// A `GET` of `path` on the vector database.
pub fn qdrant_get(cfg: &Config, path: &str) -> (r: Result<Outbound, AppError>)
    ensures
        r is Ok <==> configured(*cfg),
        r matches Ok(o) ==> is_qdrant_call(o, *cfg, Method::Get, path@, None),
        r matches Err(e) ==> missing_secret_error(*cfg, e),
{
    qdrant_call(cfg, Method::Get, path, None)
}

/// A `PUT` of a JSON body to `path` on the vector database.
pub fn qdrant_put(cfg: &Config, path: &str, body: Json) -> (r: Result<Outbound, AppError>)
    ensures
        r is Ok <==> configured(*cfg),
        r matches Ok(o) ==> is_qdrant_call(o, *cfg, Method::Put, path@, Some(body@)),
        r matches Err(e) ==> missing_secret_error(*cfg, e),
{
    qdrant_call(cfg, Method::Put, path, Some(body))
}

/// A `POST` of a JSON body to `path` on the vector database.
pub fn qdrant_post(cfg: &Config, path: &str, body: Json) -> (r: Result<Outbound, AppError>)
    ensures
        r is Ok <==> configured(*cfg),
        r matches Ok(o) ==> is_qdrant_call(o, *cfg, Method::Post, path@, Some(body@)),
        r matches Err(e) ==> missing_secret_error(*cfg, e),
{
    qdrant_call(cfg, Method::Post, path, Some(body))
}

} // verus!
