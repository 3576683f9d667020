//! What holds of every request the router is given.
use vstd::prelude::*;
use vstd::utf8::encode_utf8;
use crate::json::{lemma_escaped_plain, object_of};
use crate::response::{greeting_text, healthy_text, message_key, status_key};
use crate::router::{body_text, dispatched, Dispatch, Route, STATUS_OK};

verus! {

/// The greeting body, as it goes on the wire.
pub open spec fn greeting_json() -> Seq<char> {
    "{\"message\":\"Hello from Rust!\"}"@
}

/// The health body, as it goes on the wire.
pub open spec fn health_json() -> Seq<char> {
    "{\"status\":\"healthy\"}"@
}

/// The two route bodies spelled out.
proof fn lemma_body_texts()
    ensures
        body_text(Route::Index) == greeting_json(),
        body_text(Route::Health) == health_json(),
{
    reveal_strlit("Hello from Rust!");
    reveal_strlit("healthy");
    reveal_strlit("message");
    reveal_strlit("status");
    reveal_strlit("{\"message\":\"Hello from Rust!\"}");
    reveal_strlit("{\"status\":\"healthy\"}");
    lemma_escaped_plain(greeting_text());
    lemma_escaped_plain(healthy_text());
    lemma_escaped_plain(message_key());
    lemma_escaped_plain(status_key());
    assert(object_of(message_key(), greeting_text()) =~= greeting_json());
    assert(object_of(status_key(), healthy_text()) =~= health_json());
}

/// Every `GET /` is handled with the success status and the body
/// `{"message":"Hello from Rust!"}`.
pub proof fn lemma_root_greets(method: Seq<char>, path: Seq<char>, d: Dispatch)
    requires
        method == "GET"@,
        path == "/"@,
        dispatched(method, path, d),
    ensures
        d matches Dispatch::Handled(reply) && reply.status == STATUS_OK && reply.body@
            == encode_utf8(greeting_json()),
{
    lemma_body_texts();
}

/// Every `GET /health` is handled with the success status and the body
/// `{"status":"healthy"}`.
pub proof fn lemma_health_reports_healthy(method: Seq<char>, path: Seq<char>, d: Dispatch)
    requires
        method == "GET"@,
        path == "/health"@,
        dispatched(method, path, d),
    ensures
        d matches Dispatch::Handled(reply) && reply.status == STATUS_OK && reply.body@
            == encode_utf8(health_json()),
{
    reveal_strlit("/");
    reveal_strlit("/health");
    assert("/"@ != "/health"@) by {
        assert("/"@.len() != "/health"@.len());
    }
    lemma_body_texts();
}

/// A request that is neither `GET /` nor `GET /health`, by exact comparison,
/// is not found.
pub proof fn lemma_unregistered_not_found(method: Seq<char>, path: Seq<char>, d: Dispatch)
    requires
        !(method == "GET"@ && (path == "/"@ || path == "/health"@)),
        dispatched(method, path, d),
    ensures
        d is NotFound,
{
}

/// The same request, dispatched twice, gets the same outcome: the same
/// status, content type and body bytes.
pub proof fn lemma_repeat_same_reply(method: Seq<char>, path: Seq<char>, a: Dispatch, b: Dispatch)
    requires
        dispatched(method, path, a),
        dispatched(method, path, b),
    ensures
        a is NotFound <==> b is NotFound,
        a matches Dispatch::Handled(x) ==> b matches Dispatch::Handled(y) && x.status == y.status
            && x.content_type@ == y.content_type@ && x.body@ == y.body@,
{
}

/// Requests to `/` and `/health`, in any interleaving, each get the correct
/// reply of their own path, whatever the others asked for.
pub proof fn lemma_interleaved_requests(requests: Seq<(Seq<char>, Seq<char>)>, outcomes: Seq<Dispatch>)
    requires
        outcomes.len() == requests.len(),
        forall|i: int|
            0 <= i < requests.len() ==> #[trigger] requests[i].0 == "GET"@ && (requests[i].1
                == "/"@ || requests[i].1 == "/health"@),
        forall|i: int|
            0 <= i < requests.len() ==> dispatched(requests[i].0, requests[i].1, #[trigger] outcomes[i]),
    ensures
        forall|i: int|
            0 <= i < requests.len() ==> (#[trigger] outcomes[i] matches Dispatch::Handled(reply)
                && reply.status == STATUS_OK && reply.body@ == encode_utf8(
                if requests[i].1 == "/"@ {
                    greeting_json()
                } else {
                    health_json()
                },
            )),
{
    lemma_body_texts();
    assert forall|i: int| 0 <= i < requests.len() implies (#[trigger] outcomes[i] matches Dispatch::Handled(reply)
        && reply.status == STATUS_OK && reply.body@ == encode_utf8(
        if requests[i].1 == "/"@ {
            greeting_json()
        } else {
            health_json()
        },
    )) by {
        assert(requests[i].0 == "GET"@);
        assert(dispatched(requests[i].0, requests[i].1, outcomes[i]));
    }
}

} // verus!
