//! The link search controller: what it answers for each method, given what
//! the backend answered.

use vstd::prelude::*;
use vstd::string::*;

use crate::errors::{
    error_json, unit_json, BadIdError, CreateLinkError, LinkNotFoundError, MissingQueryParamError,
    PayloadDeserializationError, UpdateLinkError,
};
use crate::filter::{link_search_rule, RequestFilterOutcome};
use crate::http::{is_bare, is_json, lookup, Method, ParamMap, Request, Response};
use crate::messages::{
    link_json, CreateLinkRequest, CreateLinkResponse, LinkModel, SearchResponse, UpdateLinkRequest,
    UpdateLinkResponse,
};
use crate::text::{int_error_text, parse_decimal, parse_u64};

verus! {

/// The name of the parameter that identifies a link.
pub open spec fn search_id() -> Seq<char> {
    "query"@
}

/// The message of a payload that could not be read.
pub open spec fn invalid_payload(cause: Seq<char>) -> Seq<char> {
    "Invalid Payload: "@ + cause
}

/// The message of an id that is not a number.
pub open spec fn bad_id(cause: Seq<char>) -> Seq<char> {
    "Bad Id: "@ + cause
}

/// The message of a creation the backend refused.
pub open spec fn create_unavailable() -> Seq<char> {
    "Service unavailable: unable to create link at this time"@
}

/// The message of a change the backend refused.
pub open spec fn update_unavailable() -> Seq<char> {
    "Service unavailable: unable to update link at this time"@
}

/// A link as the backend stores it.
#[derive(Clone, Debug)]
pub struct LinkRecord {
    pub id: u64,
    pub model: LinkModel,
}

/// A call the controller needs the backend to make.
#[derive(Clone, Debug)]
pub enum BackendCall {
    /// Look a link up by its name.
    FindByName(String),
    /// Store a new link.
    Create(LinkModel),
    /// Change the given fields of the link with this id.
    Update(u64, UpdateLinkRequest),
}

/// The controller's next step.
#[derive(Clone, Debug)]
pub enum SearchStep {
    /// The answer is known.
    Respond(Response),
    /// The answer waits on the backend.
    Call(BackendCall),
}

/// Answers requests on links; the backend calls are made by its caller.
#[derive(Clone, Copy, Debug)]
pub struct SearchController;

fn prefixed(prefix: &str, cause: &str) -> (r: String)
    ensures
        r@ == prefix@ + cause@,
{
    let mut out = String::from_str(prefix);
    out.append(cause);
    out
}

impl SearchController {
    pub fn new() -> (r: SearchController) {
        SearchController
    }

    /// The name of the parameter that identifies a link.
    pub fn id(&self) -> (r: &'static str)
        ensures
            r@ == search_id(),
    {
        "query"
    }

    /// Refuses with 404 a POST that names a link and a PUT that names none.
    pub fn filter_request(&self, req: Request, params: ParamMap) -> (r: RequestFilterOutcome)
        ensures
            r@ == link_search_rule(req@, params@),
    {
        let named = params.contains_key(self.id());
        if (req.method == Method::Post && named) || (req.method == Method::Put && !named) {
            RequestFilterOutcome::Fail(Response::bare(404))
        } else {
            RequestFilterOutcome::Pass(req, params)
        }
    }

    /// Leaves the response as it is.
    pub fn filter_response(&self, res: Response) -> (r: Response)
        ensures
            r == res,
    {
        res
    }

    /// GET: looks the named link up, or answers 400 when no name is given.
    pub fn get(&self, params: &ParamMap) -> (r: SearchStep)
        ensures
            match lookup(params@, search_id()) {
                None => r matches SearchStep::Respond(res) && is_json(res, 400, unit_json()),
                Some(name) => r matches SearchStep::Call(BackendCall::FindByName(n)) && n@ == name,
            },
    {
        match params.get(self.id()) {
            None => SearchStep::Respond(MissingQueryParamError.response()),
            Some(name) => SearchStep::Call(BackendCall::FindByName(name.clone())),
        }
    }

    /// The reply to a lookup: 404 when the backend found nothing.
    pub fn found(&self, answer: Option<LinkRecord>) -> (r: Response)
        ensures
            match answer {
                None => is_json(r, 404, unit_json()),
                Some(rec) => is_json(r, 200, link_json(rec.id as nat, rec.model)),
            },
    {
        match answer {
            None => LinkNotFoundError.response(),
            Some(rec) => Response::json(200, SearchResponse { id: rec.id, model: rec.model }.to_json()),
        }
    }

    /// POST: creates the link of the payload, or answers 400 when the body
    /// could not be read (`payload` holds why).
    pub fn post(&self, payload: Result<CreateLinkRequest, String>) -> (r: SearchStep)
        ensures
            match payload {
                Err(cause) => r matches SearchStep::Respond(res) && is_json(
                    res,
                    400,
                    error_json(invalid_payload(cause@)),
                ),
                Ok(p) => r == SearchStep::Call(BackendCall::Create(p.model)),
            },
    {
        match payload {
            Err(cause) => {
                let e = PayloadDeserializationError {
                    error: prefixed("Invalid Payload: ", cause.as_str()),
                };
                SearchStep::Respond(e.response())
            },
            Ok(p) => SearchStep::Call(BackendCall::Create(p.model)),
        }
    }

    /// The reply to a creation: 503 when the backend refused it.
    pub fn created(&self, answer: Option<LinkRecord>) -> (r: Response)
        ensures
            match answer {
                None => is_json(r, 503, error_json(create_unavailable())),
                Some(rec) => is_json(r, 200, link_json(rec.id as nat, rec.model)),
            },
    {
        match answer {
            None => {
                let e = CreateLinkError {
                    error: String::from_str(
                        "Service unavailable: unable to create link at this time",
                    ),
                };
                e.response()
            },
            Some(rec) => Response::json(
                200,
                CreateLinkResponse { id: rec.id, model: rec.model }.to_json(),
            ),
        }
    }

    /// PUT: changes the link whose id is in the path. Answers 404 when no id
    /// is given, 400 when it is not a number, then 400 when the body could
    /// not be read.
    pub fn put(&self, params: &ParamMap, payload: Result<UpdateLinkRequest, String>) -> (r:
        SearchStep)
        ensures
            match lookup(params@, search_id()) {
                None => r matches SearchStep::Respond(res) && is_bare(res, 404),
                Some(text) => match parse_decimal(text) {
                    Err(e) => r matches SearchStep::Respond(res) && is_json(
                        res,
                        400,
                        error_json(bad_id(int_error_text(e))),
                    ),
                    Ok(id) => match payload {
                        Err(cause) => r matches SearchStep::Respond(res) && is_json(
                            res,
                            400,
                            error_json(invalid_payload(cause@)),
                        ),
                        Ok(u) => r == SearchStep::Call(BackendCall::Update(id, u)),
                    },
                },
            },
    {
        let text = match params.get(self.id()) {
            None => return SearchStep::Respond(Response::bare(404)),
            Some(text) => text,
        };
        let id = match parse_u64(text.as_str()) {
            Err(e) => {
                let b = BadIdError { error: prefixed("Bad Id: ", e.message()) };
                return SearchStep::Respond(b.response());
            },
            Ok(id) => id,
        };
        match payload {
            Err(cause) => {
                let e = PayloadDeserializationError {
                    error: prefixed("Invalid Payload: ", cause.as_str()),
                };
                SearchStep::Respond(e.response())
            },
            Ok(u) => SearchStep::Call(BackendCall::Update(id, u)),
        }
    }

    /// The reply to a change: 503 when the backend refused it.
    pub fn updated(&self, answer: Option<LinkRecord>) -> (r: Response)
        ensures
            match answer {
                None => is_json(r, 503, error_json(update_unavailable())),
                Some(rec) => is_json(r, 200, link_json(rec.id as nat, rec.model)),
            },
    {
        match answer {
            None => {
                let e = UpdateLinkError {
                    error: String::from_str(
                        "Service unavailable: unable to update link at this time",
                    ),
                };
                e.response()
            },
            Some(rec) => Response::json(
                200,
                UpdateLinkResponse { id: rec.id, model: rec.model }.to_json(),
            ),
        }
    }

    /// DELETE is not offered: 404 with an empty body.
    pub fn delete(&self) -> (r: Response)
        ensures
            is_bare(r, 404),
    {
        Response::bare(404)
    }
}

} // verus!
