//! How the HTTP endpoint treats a request before any JSON-RPC is read.
use vstd::prelude::*;
use crate::text::{same_text, starts_with};

verus! {

/// The largest request body accepted by default: 1 MiB.
pub const DEFAULT_MAX_BODY: usize = 1048576;

/// Where an HTTP request goes.
#[derive(PartialEq, Eq, Structural, Clone, Copy, Debug)]
pub enum Route {
    /// `POST <mount>` with a JSON body: a JSON-RPC call.
    Rpc,
    /// `GET <mount>`: the server-info document.
    Info,
    /// Any other method or path.
    NotFound,
    /// The body exceeds the limit.
    PayloadTooLarge,
    /// The body is not declared as JSON.
    UnsupportedMediaType,
}

/// A content type that declares JSON, with or without parameters.
pub open spec fn is_json_type(ct: Seq<char>) -> bool {
    ct == "application/json"@ || "application/json;"@.is_prefix_of(ct)
}

/// The route of a request with this method, path, content type and body
/// length, for an endpoint mounted at `mount` that accepts bodies up to
/// `max_body` bytes.
pub open spec fn route_spec(
    method: Seq<char>,
    path: Seq<char>,
    mount: Seq<char>,
    content_type: Option<Seq<char>>,
    body_len: nat,
    max_body: nat,
) -> Route {
    if path != mount {
        Route::NotFound
    } else if method == "GET"@ {
        Route::Info
    } else if method != "POST"@ {
        Route::NotFound
    } else if body_len > max_body {
        Route::PayloadTooLarge
    } else if content_type is None || !is_json_type(content_type->Some_0) {
        Route::UnsupportedMediaType
    } else {
        Route::Rpc
    }
}

/// The view of an optional piece of text.
pub open spec fn opt_view(t: Option<&str>) -> Option<Seq<char>> {
    match t {
        Some(s) => Some(s@),
        None => None,
    }
}

/// Decides where an HTTP request goes.
pub fn route(
    method: &str,
    path: &str,
    mount: &str,
    content_type: Option<&str>,
    body_len: usize,
    max_body: usize,
) -> (r: Route)
    ensures
        r == route_spec(method@, path@, mount@, opt_view(content_type), body_len as nat, max_body as nat),
{
    if !same_text(path, mount) {
        Route::NotFound
    } else if same_text(method, "GET") {
        Route::Info
    } else if !same_text(method, "POST") {
        Route::NotFound
    } else if body_len > max_body {
        Route::PayloadTooLarge
    } else {
        match content_type {
            None => Route::UnsupportedMediaType,
            Some(ct) => {
                if same_text(ct, "application/json") || starts_with(ct, "application/json;") {
                    Route::Rpc
                } else {
                    Route::UnsupportedMediaType
                }
            },
        }
    }
}

impl Route {
    /// The HTTP status code of the answer.
    pub open spec fn status_spec(self) -> u16 {
        match self {
            Route::Rpc => 200,
            Route::Info => 200,
            Route::NotFound => 404,
            Route::PayloadTooLarge => 413,
            Route::UnsupportedMediaType => 415,
        }
    }

    /// The HTTP status code of the answer: JSON-RPC errors travel in a 200.
    pub fn status(&self) -> (r: u16)
        ensures
            r == self.status_spec(),
    {
        match self {
            Route::Rpc => 200,
            Route::Info => 200,
            Route::NotFound => 404,
            Route::PayloadTooLarge => 413,
            Route::UnsupportedMediaType => 415,
        }
    }
}

} // verus!
