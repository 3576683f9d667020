//! The fixed route table and dispatch of a request onto its handler.
use vstd::prelude::*;
use vstd::utf8::{encode_utf8, encode_utf8_decode_utf8};
use crate::json::object_of;
use crate::response::{
    greeting_text, healthy_text, json_media_type, message_key, status_key, GreetingResponse,
    HealthResponse,
};

verus! {

/// The success status every handled request is answered with.
pub const STATUS_OK: u16 = 200;

/// A registered route.
#[derive(Clone, Copy, Debug, PartialEq, Eq, Structural)]
pub enum Route {
    /// `GET /`
    Index,
    /// `GET /health`
    Health,
}

/// What a handler hands back to the transport: status, content type and body.
#[derive(Debug)]
pub struct Reply {
    pub status: u16,
    pub content_type: String,
    pub body: Vec<u8>,
}

/// The outcome of dispatching one request.
#[derive(Debug)]
pub enum Dispatch {
    Handled(Reply),
    NotFound,
}

/// The route a request names: exact, case-sensitive equality on method and
/// path, with no normalisation.
pub open spec fn route_of(method: Seq<char>, path: Seq<char>) -> Option<Route> {
    if method == "GET"@ && path == "/"@ {
        Some(Route::Index)
    } else if method == "GET"@ && path == "/health"@ {
        Some(Route::Health)
    } else {
        None
    }
}

/// The JSON text a route answers with.
pub open spec fn body_text(route: Route) -> Seq<char> {
    match route {
        Route::Index => object_of(message_key(), greeting_text()),
        Route::Health => object_of(status_key(), healthy_text()),
    }
}

/// `reply` is the answer of `route`'s handler.
pub open spec fn answers(reply: Reply, route: Route) -> bool {
    &&& reply.status == STATUS_OK
    &&& reply.content_type@ == json_media_type()
    &&& reply.body@ == encode_utf8(body_text(route))
}

/// `d` is the outcome of dispatching the request `method path`.
pub open spec fn dispatched(method: Seq<char>, path: Seq<char>, d: Dispatch) -> bool {
    match route_of(method, path) {
        Some(route) => d matches Dispatch::Handled(reply) && answers(reply, route),
        None => d is NotFound,
    }
}

/// Whether two strings hold the same characters, compared byte by byte.
fn same_text(a: &str, b: &str) -> (r: bool)
    ensures
        r == (a@ == b@),
{
    let x = a.as_bytes();
    let y = b.as_bytes();
    proof {
        encode_utf8_decode_utf8(a@);
        encode_utf8_decode_utf8(b@);
    }
    if x.len() != y.len() {
        return false;
    }
    let mut i: usize = 0;
    while i < x.len()
        invariant
            x@ == encode_utf8(a@),
            y@ == encode_utf8(b@),
            x@.len() == y@.len(),
            0 <= i <= x@.len(),
            forall|j: int| 0 <= j < i ==> x@[j] == y@[j],
        decreases x@.len() - i,
    {
        if x[i] != y[i] {
            return false;
        }
        i = i + 1;
    }
    assert(x@ =~= y@);
    true
}

/// The registered route that `method path` names, if any.
pub fn find_route(method: &str, path: &str) -> (r: Option<Route>)
    ensures
        r == route_of(method@, path@),
{
    proof {
        reveal_strlit("GET");
        reveal_strlit("/");
        reveal_strlit("/health");
    }
    if !same_text(method, "GET") {
        None
    } else if same_text(path, "/") {
        Some(Route::Index)
    } else if same_text(path, "/health") {
        Some(Route::Health)
    } else {
        None
    }
}

/// Wraps an encoded record as a successful reply.
fn ok_reply(encoded: (Vec<u8>, String)) -> (r: Reply)
    ensures
        r.status == STATUS_OK,
        r.body@ == encoded.0@,
        r.content_type@ == encoded.1@,
{
    let (body, content_type) = encoded;
    Reply { status: STATUS_OK, content_type, body }
}

/// Handler of `GET /`: the greeting record.
pub fn index() -> (r: Reply)
    ensures
        answers(r, Route::Index),
{
    ok_reply(GreetingResponse::new().encode())
}

/// Handler of `GET /health`: the health record.
pub fn health() -> (r: Reply)
    ensures
        answers(r, Route::Health),
{
    ok_reply(HealthResponse::new().encode())
}

/// Dispatches a request: the matching handler's reply, or `NotFound`.
pub fn dispatch(method: &str, path: &str) -> (d: Dispatch)
    ensures
        dispatched(method@, path@, d),
{
    match find_route(method, path) {
        Some(Route::Index) => Dispatch::Handled(index()),
        Some(Route::Health) => Dispatch::Handled(health()),
        None => Dispatch::NotFound,
    }
}

} // verus!
