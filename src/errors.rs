//! The errors of the link search service, each with its fixed status.

use vstd::prelude::*;
use vstd::string::*;

use crate::http::{is_bare, is_json, Response};
use crate::text::{push_quoted, quoted};

verus! {

/// The JSON object `{"error":…}` that carries a message.
pub open spec fn error_json(message: Seq<char>) -> Seq<char> {
    "{\"error\":"@ + quoted(message) + "}"@
}

/// The JSON text of an error without fields.
pub open spec fn unit_json() -> Seq<char> {
    "null"@
}

fn error_response(status: u16, message: &String) -> (r: Response)
    ensures
        is_json(r, status, error_json(message@)),
{
    let mut out = String::new();
    out.append("{\"error\":");
    push_quoted(&mut out, message.as_str());
    out.append("}");
    proof {
        assert(out@ =~= error_json(message@));
    }
    Response::json(status, out)
}

fn unit_response(status: u16) -> (r: Response)
    ensures
        is_json(r, status, unit_json()),
{
    Response::json(status, String::from_str("null"))
}

/// An unexpected failure; its reply carries no detail.
#[derive(Clone, Copy, Debug)]
pub struct InternalServerError;

impl InternalServerError {
    /// Status 500 with an empty body.
    pub fn response(&self) -> (r: Response)
        ensures
            is_bare(r, 500),
    {
        Response::bare(500)
    }
}

/// No link has the name asked for.
#[derive(Clone, Copy, Debug)]
pub struct LinkNotFoundError;

impl LinkNotFoundError {
    /// Status 404.
    pub fn response(&self) -> (r: Response)
        ensures
            is_json(r, 404, unit_json()),
    {
        unit_response(404)
    }
}

/// The lookup parameter is missing.
#[derive(Clone, Copy, Debug)]
pub struct MissingQueryParamError;

impl MissingQueryParamError {
    /// Status 400.
    pub fn response(&self) -> (r: Response)
        ensures
            is_json(r, 400, unit_json()),
    {
        unit_response(400)
    }
}

/// The request body is not the payload expected.
#[derive(Clone, Debug)]
pub struct PayloadDeserializationError {
    pub error: String,
}

impl PayloadDeserializationError {
    /// Status 400 with the message.
    pub fn response(&self) -> (r: Response)
        ensures
            is_json(r, 400, error_json(self.error@)),
    {
        error_response(400, &self.error)
    }
}

/// The backend could not create the link.
#[derive(Clone, Debug)]
pub struct CreateLinkError {
    pub error: String,
}

impl CreateLinkError {
    /// Status 503 with the message.
    pub fn response(&self) -> (r: Response)
        ensures
            is_json(r, 503, error_json(self.error@)),
    {
        error_response(503, &self.error)
    }
}

/// The backend could not change the link.
#[derive(Clone, Debug)]
pub struct UpdateLinkError {
    pub error: String,
}

impl UpdateLinkError {
    /// Status 503 with the message.
    pub fn response(&self) -> (r: Response)
        ensures
            is_json(r, 503, error_json(self.error@)),
    {
        error_response(503, &self.error)
    }
}

/// The id in the path is not a number.
#[derive(Clone, Debug)]
pub struct BadIdError {
    pub error: String,
}

impl BadIdError {
    /// Status 400 with the message.
    pub fn response(&self) -> (r: Response)
        ensures
            is_json(r, 400, error_json(self.error@)),
    {
        error_response(400, &self.error)
    }
}

} // verus!
