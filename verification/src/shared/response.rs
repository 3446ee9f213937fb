use vstd::prelude::*;

use crate::users::dto::{UserDtoResponse, UserIdDtoResponse};

verus! {

/// JSON error envelope: a human-readable message and nothing more.
pub struct ErrorResponse {
    pub message: String,
}

/// What a reply's body holds: one of the success payload shapes, an
/// error envelope, or nothing (for a 204).
pub enum ResponsePayload {
    Users(Vec<UserDtoResponse>),
    User(UserDtoResponse),
    UserId(UserIdDtoResponse),
    Error(ErrorResponse),
    Empty,
}

/// An HTTP reply as this library decides it: a status code and a body.
/// The binary turns it into a framework response.
pub struct HttpReply {
    pub status: u16,
    pub body: ResponsePayload,
}

/// Helper for an HTTP 200 OK reply with the given payload.
pub fn http_ok(payload: ResponsePayload) -> (r: HttpReply)
    ensures
        r.status == 200,
        r.body == payload,
{
    HttpReply { status: 200, body: payload }
}

/// Helper for an HTTP 204 No Content reply.
pub fn http_no_content() -> (r: HttpReply)
    ensures
        r.status == 204,
        r.body is Empty,
{
    HttpReply { status: 204, body: ResponsePayload::Empty }
}

/// Helper for an HTTP 400 Bad Request reply carrying an error envelope.
pub fn http_bad_request(message: String) -> (r: HttpReply)
    ensures
        r.status == 400,
        r.body matches ResponsePayload::Error(e) && e.message == message,
{
    HttpReply { status: 400, body: ResponsePayload::Error(ErrorResponse { message }) }
}

/// Helper for an HTTP 500 Internal Server Error reply carrying an error
/// envelope.
pub fn http_internal_server_error(message: String) -> (r: HttpReply)
    ensures
        r.status == 500,
        r.body matches ResponsePayload::Error(e) && e.message == message,
{
    HttpReply { status: 500, body: ResponsePayload::Error(ErrorResponse { message }) }
}

} // verus!
