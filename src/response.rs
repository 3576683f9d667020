//! The two records the service answers with, and their encoding as JSON bodies.
use vstd::prelude::*;
use vstd::utf8::encode_utf8;
use crate::json::{encode_member, object_of};

verus! {

/// The greeting the root route answers with.
pub const GREETING: &'static str = "Hello from Rust!";

/// The status the health route reports.
pub const HEALTHY: &'static str = "healthy";

pub open spec fn greeting_text() -> Seq<char> {
    GREETING@
}

pub open spec fn healthy_text() -> Seq<char> {
    HEALTHY@
}

pub open spec fn message_key() -> Seq<char> {
    "message"@
}

pub open spec fn status_key() -> Seq<char> {
    "status"@
}

/// The media type of a JSON body.
pub open spec fn json_media_type() -> Seq<char> {
    "application/json"@
}

/// Relies on mime::APPLICATION_JSON, as re-exported by actix-web, the media
/// type actix-web marks JSON bodies with: its essence is `application/json`.
#[verifier::external_body]
fn json_content_type() -> (r: String)
    ensures
        r@ == json_media_type(),
{
    actix_web::mime::APPLICATION_JSON.essence_str().to_string()
}

/// Body and content type of a record whose one member is `key: value`.
fn encode_record(key: &str, value: &str) -> (r: (Vec<u8>, String))
    ensures
        r.0@ == encode_utf8(object_of(key@, value@)),
        r.1@ == json_media_type(),
{
    let text = encode_member(key, value);
    (text.as_str().as_bytes_vec(), json_content_type())
}

/// The record served on the root route.
pub struct GreetingResponse {
    pub message: String,
}

impl GreetingResponse {
    /// The message is the deployment's greeting.
    pub open spec fn wf(&self) -> bool {
        self.message@ == greeting_text()
    }

    pub fn new() -> (r: GreetingResponse)
        ensures
            r.wf(),
    {
        GreetingResponse { message: String::from_str(GREETING) }
    }

    /// The JSON body `{"message":...}` and its content type.
    pub fn encode(&self) -> (r: (Vec<u8>, String))
        ensures
            r.0@ == encode_utf8(object_of(message_key(), self.message@)),
            r.1@ == json_media_type(),
    {
        encode_record("message", self.message.as_str())
    }
}

/// The record served on the health route.
pub struct HealthResponse {
    pub status: String,
}

impl HealthResponse {
    /// The status reads healthy.
    pub open spec fn wf(&self) -> bool {
        self.status@ == healthy_text()
    }

    pub fn new() -> (r: HealthResponse)
        ensures
            r.wf(),
    {
        HealthResponse { status: String::from_str(HEALTHY) }
    }

    /// The JSON body `{"status":...}` and its content type.
    pub fn encode(&self) -> (r: (Vec<u8>, String))
        ensures
            r.0@ == encode_utf8(object_of(status_key(), self.status@)),
            r.1@ == json_media_type(),
    {
        encode_record("status", self.status.as_str())
    }
}

} // verus!
