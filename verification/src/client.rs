//! The protocol side of one exchange with the service: what to send for a
//! query, and what an answer means.
//!
//! The transport itself lives outside this crate. It sends the request that
//! `request` describes, reports the status of the answer to `handle_status`,
//! reads and decodes the body only when told to, and hands the outcome to
//! `handle_body`. A transport that fails reports its cause to
//! `transport_failure`.

use vstd::prelude::*;
use vstd::string::*;
use crate::decimal::{decimal, push_decimal};
use crate::errors::{ConnpassCliError, ConnpassResult, HttpResponseError};
use crate::query::Query;
use crate::response::ConnpassResponse;

verus! {

/// The endpoint of the event search.
pub const BASE_URL: &'static str = "https://connpass.com/api/v1/event/";

/// The user agent that identifies this library at the given version.
pub open spec fn user_agent_text(version: Seq<char>) -> Seq<char> {
    "connpass-rs/"@ + version + " (+https://github.com/yuk1ty/connpass-rs)"@
}

/// Returns the user agent that identifies this library at the given version.
pub fn user_agent(version: &str) -> (agent: String)
    ensures
        agent@ == user_agent_text(version@),
{
    let mut agent = "connpass-rs/".to_owned();
    agent.append(version);
    agent.append(" (+https://github.com/yuk1ty/connpass-rs)");
    agent
}

/// One GET request, ready to be sent.
#[derive(PartialEq, Debug)]
pub struct Request {
    /// The address to send the request to.
    pub url: String,
    /// The value of the `User-Agent` header.
    pub user_agent: String,
    /// The query parameters, in the order in which they are sent.
    pub params: Vec<(String, String)>,
}

/// Describes the one request that stands for `query`: a GET of the search
/// endpoint with the library's user agent and the flattened query.
pub fn request(query: Query, version: &str) -> (req: Request)
    ensures
        req.url@ == BASE_URL@,
        req.user_agent@ == user_agent_text(version@),
        req.params.deep_view() == query@.params(),
{
    Request {
        url: BASE_URL.to_owned(),
        user_agent: user_agent(version),
        params: query.make_reqwest_query(),
    }
}

/// What to do with an answer once its status is known.
#[derive(Debug)]
pub enum ResponseAction {
    /// Read the body and decode it.
    Decode,
    /// Leave the body alone and report this error.
    Fail(ConnpassCliError),
}

/// The text of the error for a status that has no category of its own.
pub open spec fn unexpected_status_message(status: u16) -> Seq<char> {
    "Unexpected response received: "@ + decimal(status as nat) + " (status code)"@
}

/// Whether `e` is the error that stands for a status other than 200.
pub open spec fn status_rejection(status: u16, e: ConnpassCliError) -> bool {
    e matches ConnpassCliError::HttpResponse(h) && if status == 403 {
        h is Forbidden
    } else if status == 500 {
        h is InternalServerError
    } else if status == 503 {
        h is ServiceUnavailable
    } else {
        h is Various && h.text() == unexpected_status_message(status)
    }
}

/// Classifies the status of an answer. Only status 200 asks for the body;
/// every other status is an error, and its body is never decoded.
pub fn handle_status(status: u16) -> (action: ResponseAction)
    ensures
        match action {
            ResponseAction::Decode => status == 200,
            ResponseAction::Fail(e) => status != 200 && status_rejection(status, e),
        },
{
    if status == 200 {
        ResponseAction::Decode
    } else if status == 403 {
        ResponseAction::Fail(ConnpassCliError::HttpResponse(HttpResponseError::Forbidden))
    } else if status == 500 {
        ResponseAction::Fail(ConnpassCliError::HttpResponse(HttpResponseError::InternalServerError))
    } else if status == 503 {
        ResponseAction::Fail(ConnpassCliError::HttpResponse(HttpResponseError::ServiceUnavailable))
    } else {
        let mut msg = "Unexpected response received: ".to_owned();
        push_decimal(&mut msg, status as u64);
        msg.append(" (status code)");
        ResponseAction::Fail(ConnpassCliError::HttpResponse(HttpResponseError::Various(msg)))
    }
}

/// Turns the outcome of decoding the body of a status-200 answer into the
/// result of the exchange: the decoded response, or a `JsonDecode` error
/// that carries the decoder's message.
pub fn handle_body(outcome: Result<ConnpassResponse, String>) -> (r: ConnpassResult<
    ConnpassResponse,
>)
    ensures
        match outcome {
            Ok(response) => r == Ok::<ConnpassResponse, ConnpassCliError>(response),
            Err(msg) => r == Err::<ConnpassResponse, ConnpassCliError>(
                ConnpassCliError::HttpResponse(HttpResponseError::JsonDecode(msg)),
            ),
        },
{
    match outcome {
        Ok(response) => Ok(response),
        Err(msg) => Err(ConnpassCliError::HttpResponse(HttpResponseError::JsonDecode(msg))),
    }
}

/// The error for a request that produced no answer, with the transport's cause.
pub fn transport_failure(cause: String) -> (e: ConnpassCliError)
    ensures
        e == ConnpassCliError::HttpResponse(HttpResponseError::TransportError(cause)),
{
    ConnpassCliError::HttpResponse(HttpResponseError::TransportError(cause))
}

} // verus!
