//! The client half that can be reasoned about: forming the request
//! descriptor for a payload, and turning an HTTP status and a parsed body
//! into the caller's result. The transport that carries the descriptor
//! over the network lives outside this crate.

use vstd::prelude::*;
use crate::endpoints::{bearer, Endpoint, Request, Response, ResponseError};

verus! {

/// A client: the bearer token every request is authorized with.
#[derive(Debug, Clone)]
pub struct Client {
    pub api_key: String,
}

impl Client {
    /// A client that authorizes with `api_key`.
    pub fn new(api_key: &str) -> (r: Client)
        ensures
            r.api_key@ == api_key@,
    {
        Client { api_key: api_key.to_owned() }
    }

    /// Forms the request descriptor that asks `model`'s endpoint for a
    /// response, authorized with this client's key.
    ///
    /// * `engine_id` - The engine id to use; required only by the
    ///   endpoints whose URL embeds it.
    /// * `model` - The payload to send.
    pub fn prepare<T: Endpoint>(&self, engine_id: Option<&str>, model: &T) -> (r: Request)
        requires
            model.needs_engine() ==> engine_id is Some,
        ensures
            r.method@ == "POST"@,
            r.url@ == model.url_spec(engine_id),
            r.authorization@ == bearer(self.api_key@),
            r.content_type@ == "application/json"@,
            r.body@ == model.body_spec(),
    {
        model.request(self.api_key.as_str(), engine_id)
    }
}

/// Whether an HTTP status is a success status.
pub open spec fn is_success_status(status: u16) -> bool {
    200 <= status < 300
}

/// Turns the transport's outcome into the caller's result: a non-success
/// status becomes the status-code error whatever the body held; on a
/// success status the parsed body is handed through, and a body that did
/// not deserialize becomes the serialization error carrying the parser's
/// message.
pub fn interpret_response(status: u16, parsed: Result<Response, String>) -> (r: Result<
    Response,
    ResponseError,
>)
    ensures
        !is_success_status(status) ==> r == Err::<Response, ResponseError>(
            ResponseError::ErrorCode(status),
        ),
        is_success_status(status) ==> match parsed {
            Result::Ok(resp) => r == Ok::<Response, ResponseError>(resp),
            Result::Err(m) => r == Err::<Response, ResponseError>(
                ResponseError::Serialization(m),
            ),
        },
{
    if 200 <= status && status < 300 {
        match parsed {
            Result::Ok(resp) => Result::Ok(resp),
            Result::Err(m) => Result::Err(ResponseError::Serialization(m)),
        }
    } else {
        Result::Err(ResponseError::ErrorCode(status))
    }
}

} // verus!
