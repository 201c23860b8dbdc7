//! One round trip with the completion endpoint: what is sent along with the
//! request, and how the endpoint's answer is judged.

use vstd::prelude::*;
use vstd::string::StringExecFns;
use crate::oai::OAIResponse;

verus! {

/// Why a turn produced no reply.
#[derive(Debug, Clone, Copy, PartialEq, Eq, Structural)]
pub enum ExchangeError {
    /// No credential was configured.
    MissingCredential,
    /// The endpoint could not be reached.
    TransportFailure,
    /// The endpoint answered with a status outside the success range.
    HttpStatusFailure(u16),
    /// The body of a successful answer was not a completion response.
    MalformedResponse,
    /// The response held no choice to take the reply from.
    EmptyCompletion,
}

/// What the caller observed of one attempt to reach the endpoint.
#[derive(Debug)]
pub enum Arrival {
    /// The request never got an answer.
    Unreachable,
    /// An answer came with this status; `body` is the parsed response, or
    /// `None` where the body did not parse. A body is only looked at where
    /// the status reports success.
    Answered { status: u16, body: Option<OAIResponse> },
}

/// Whether a status code lies in the success range, 200 to 299.
pub open spec fn is_success_status(status: u16) -> bool {
    200 <= status && status < 300
}

/// The outcome of a parsed response: the first choice's text, or the reason
/// there is none.
pub open spec fn reply_of(response: OAIResponse) -> Result<Seq<char>, ExchangeError> {
    if response.choices@.len() == 0 {
        Err(ExchangeError::EmptyCompletion)
    } else {
        Ok(response.choices@[0].message.content@)
    }
}

/// The outcome of a body that was read after a successful status.
pub open spec fn body_outcome(body: Option<OAIResponse>) -> Result<Seq<char>, ExchangeError> {
    match body {
        None => Err(ExchangeError::MalformedResponse),
        Some(response) => reply_of(response),
    }
}

/// The outcome of a whole attempt.
pub open spec fn outcome_of(arrival: Arrival) -> Result<Seq<char>, ExchangeError> {
    match arrival {
        Arrival::Unreachable => Err(ExchangeError::TransportFailure),
        Arrival::Answered { status, body } => if is_success_status(status) {
            body_outcome(body)
        } else {
            Err(ExchangeError::HttpStatusFailure(status))
        },
    }
}

/// An outcome with its text taken as a sequence of characters.
pub open spec fn text_view(outcome: Result<String, ExchangeError>) -> Result<
    Seq<char>,
    ExchangeError,
> {
    match outcome {
        Ok(text) => Ok(text@),
        Err(error) => Err(error),
    }
}

/// Whether a number is a status code at all: three digits, 100 to 999.
pub open spec fn is_status_code(status: u16) -> bool {
    100 <= status && status < 1000
}

/// Calls `hyper::StatusCode::from_u16` and, on the status code it yields,
/// `StatusCode::is_success`. The first yields a status code exactly for the
/// numbers from 100 to 999, and the second holds exactly of the codes from
/// 200 to 299. For a number that is no status code the result is `None`.
#[verifier::external_body]
fn status_success(status: u16) -> (success: Option<bool>)
    ensures
        success == if is_status_code(status) {
            Some(is_success_status(status))
        } else {
            None::<bool>
        },
{
    match hyper::StatusCode::from_u16(status) {
        Ok(code) => Some(code.is_success()),
        Err(_) => None,
    }
}

/// The address of the completion endpoint.
pub fn endpoint() -> (uri: &'static str)
    ensures
        uri@ == "https://api.openai.com/v1/chat/completions"@,
{
    "https://api.openai.com/v1/chat/completions"
}

/// The content type under which a request body is sent.
pub fn content_type() -> (value: &'static str)
    ensures
        value@ == "application/json"@,
{
    "application/json"
}

/// The value of the authorization header for a bearer token.
pub fn bearer_header(token: &str) -> (value: String)
    ensures
        value@ == "Bearer "@ + token@,
{
    let mut value = String::from_str("Bearer ");
    value.append(token);
    value
}

/// The authorization header for the configured credential, or
/// `MissingCredential` where none is configured.
pub fn authorization(credential: Option<String>) -> (value: Result<String, ExchangeError>)
    ensures
        text_view(value) == match credential {
            Some(token) => Ok::<Seq<char>, ExchangeError>("Bearer "@ + token@),
            None => Err::<Seq<char>, ExchangeError>(ExchangeError::MissingCredential),
        },
{
    match credential {
        Some(token) => Ok(bearer_header(token.as_str())),
        None => Err(ExchangeError::MissingCredential),
    }
}

/// Judges the status of an answer: a status from 200 to 299 lets the body be
/// read, any other number is a failure that carries it.
pub fn check_status(status: u16) -> (verdict: Result<(), ExchangeError>)
    ensures
        verdict == if is_success_status(status) {
            Ok::<(), ExchangeError>(())
        } else {
            Err::<(), ExchangeError>(ExchangeError::HttpStatusFailure(status))
        },
{
    match status_success(status) {
        Some(true) => Ok(()),
        Some(false) | None => Err(ExchangeError::HttpStatusFailure(status)),
    }
}

/// Takes the assistant's text from a parsed response: the content of the
/// first choice. A response without choices is an `EmptyCompletion`.
pub fn extract_reply(response: &OAIResponse) -> (reply: Result<String, ExchangeError>)
    ensures
        text_view(reply) == reply_of(*response),
{
    if response.choices.len() == 0 {
        Err(ExchangeError::EmptyCompletion)
    } else {
        Ok(response.choices[0].message.content.clone())
    }
}

/// Judges the body of an answer whose status reported success: a body that
/// did not parse is a `MalformedResponse`, a parsed one yields its reply.
pub fn read_body(body: &Option<OAIResponse>) -> (reply: Result<String, ExchangeError>)
    ensures
        text_view(reply) == body_outcome(*body),
{
    match body {
        None => Err(ExchangeError::MalformedResponse),
        Some(response) => extract_reply(response),
    }
}

/// Folds what was observed of one attempt into its outcome: the assistant's
/// text, or the one error that applies. The body is not looked at unless the
/// status reports success.
pub fn conclude(arrival: &Arrival) -> (outcome: Result<String, ExchangeError>)
    ensures
        text_view(outcome) == outcome_of(*arrival),
{
    match arrival {
        Arrival::Unreachable => Err(ExchangeError::TransportFailure),
        Arrival::Answered { status, body } => match check_status(*status) {
            Ok(()) => read_body(body),
            Err(error) => Err(error),
        },
    }
}

} // verus!
