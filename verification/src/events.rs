//! The two ends of a request: what is read from the gateway's event before
//! a flow starts, and the answer that is handed back.

use crate::errors::{ErrorResponse, LambdaError, LambdaErrorView};
use crate::text::str_eq;
use vstd::prelude::*;

verus! {

/// One header of an event or of an answer.
#[derive(Debug)]
pub struct Header {
    pub name: String,
    pub value: String,
}

/// An answer to the gateway: the status, the body, and the headers.
#[derive(Debug)]
pub struct ApiResponse {
    pub status_code: i64,
    pub body: Option<String>,
    pub headers: Vec<Header>,
}

/// An answer with the given status and body, and with the given headers or
/// none.
pub fn apigw_response(status_code: i64, body: Option<String>, headers: Option<Vec<Header>>) -> (r:
    ApiResponse)
    ensures
        r.status_code == status_code,
        r.body == body,
        match headers {
            Some(list) => r.headers == list,
            None => r.headers@.len() == 0,
        },
{
    ApiResponse {
        status_code,
        body,
        headers: match headers {
            Some(list) => list,
            None => Vec::new(),
        },
    }
}

/// What is done with an event.
#[derive(Clone, Copy, Debug, PartialEq, Eq, Structural)]
pub enum Routing {
    /// The event is for this handler.
    Handle,
    /// The event is for a resource that this handler does not serve: it is
    /// answered with status 404.
    NotFound,
}

/// Reads the gateway's events.
#[derive(Debug)]
pub struct LambdaEventRequestHandler {}

impl LambdaEventRequestHandler {
    /// The identifiers of the caller and of its organization, as the
    /// gateway has put them into the headers `user_id` and
    /// `organization_id`. An event that lacks one of them fails with an
    /// internal error.
    pub fn get_ids_from_request_context(
        user_id: Option<String>,
        organization_id: Option<String>,
    ) -> (r: Result<(String, String), LambdaError>)
        ensures
            match (user_id, organization_id) {
                (Some(user), Some(organization)) => r == Ok::<(String, String), LambdaError>(
                    (user, organization),
                ),
                (None, _) => r is Err && r->Err_0@ == LambdaErrorView::InternalError(
                    "missing user id"@,
                ),
                (Some(_), None) => r is Err && r->Err_0@ == LambdaErrorView::InternalError(
                    "missing organization id"@,
                ),
            },
    {
        let user = match user_id {
            Some(user) => user,
            None => {
                return Err(LambdaError::InternalError("missing user id".to_owned()));
            },
        };
        match organization_id {
            Some(organization) => Ok((user, organization)),
            None => Err(LambdaError::InternalError("missing organization id".to_owned())),
        }
    }

    /// Whether an event for `resource` is for the handler of `target`.
    pub fn handle_requests(resource: Option<&str>, target: &str) -> (r: Routing)
        ensures
            r == (match resource {
                Some(path) => if path@ == target@ {
                    Routing::Handle
                } else {
                    Routing::NotFound
                },
                None => Routing::NotFound,
            }),
    {
        match resource {
            Some(path) => {
                if str_eq(path, target) {
                    Routing::Handle
                } else {
                    Routing::NotFound
                }
            },
            None => Routing::NotFound,
        }
    }

    /// The answer to an event that no handler serves.
    pub fn not_found() -> (r: ApiResponse)
        ensures
            r.status_code == 404,
            r.body is Some && r.body->0@ == "Not Found"@,
            r.headers@.len() == 0,
    {
        apigw_response(404, Some("Not Found".to_owned()), None)
    }
}

/// The body of a request, or the error that it is missing.
pub fn require_body(body: Option<String>) -> (r: Result<String, LambdaError>)
    ensures
        match body {
            Some(text) => r == Ok::<String, LambdaError>(text),
            None => r is Err && r->Err_0@ == LambdaErrorView::MissingBody,
        },
{
    match body {
        Some(text) => Ok(text),
        None => Err(LambdaError::MissingBody),
    }
}

/// The status and the two texts of the body with which `error` is
/// answered.
pub fn create_error_response(error: LambdaError) -> (r: ErrorResponse)
    ensures
        r.status_code == crate::errors::status_of(error@),
        r.error@ == crate::errors::error_text_of(error@),
        r.message@ == crate::errors::user_message_of(error@),
{
    error.to_response()
}

} // verus!
