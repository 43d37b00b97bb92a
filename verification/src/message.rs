//! Requests, responses and their status codes.

use vstd::prelude::*;

verus! {

/// Status of a response whose handler succeeded.
pub const STATUS_OK: u16 = 200;

/// Status of a response to a request whose method nobody registered.
pub const STATUS_NOT_FOUND: u16 = 404;

/// Status of a response to a request that failed while it was handled.
pub const STATUS_INTERNAL_ERROR: u16 = 500;

/// The payload of a response that carries none: the JSON text `null`.
pub open spec fn null_payload() -> Seq<char> {
    "null"@
}

/// The message of a response to a request for an unknown method.
pub open spec fn not_found_message() -> Seq<char> {
    "method not found"@
}

/// The message of a response that stands in for one that never came, and of
/// a failure that brought no message of its own.
pub open spec fn internal_error_message() -> Seq<char> {
    "Internal server error"@
}

/// The message of a response to a request that could not be handed to the
/// event loop.
pub open spec fn event_loop_closed_message() -> Seq<char> {
    "event loop closed"@
}

/// Whether `status` lies in the success class.
pub open spec fn status_is_success(status: u16) -> bool {
    200 <= status < 300
}

/// Decides whether a status code reports success.
pub fn is_success(status: u16) -> (ok: bool)
    ensures
        ok == status_is_success(status),
{
    200 <= status && status < 300
}

/// A named command with the token that its response will echo. `params`
/// holds the arguments as JSON text.
#[derive(Debug, Clone, PartialEq, Eq)]
pub struct Request {
    pub id: String,
    pub method: String,
    pub params: String,
}

/// What a `Request` is, as plain text.
pub struct RequestView {
    pub id: Seq<char>,
    pub method: Seq<char>,
    pub params: Seq<char>,
}

impl View for Request {
    type V = RequestView;

    open spec fn view(&self) -> RequestView {
        RequestView { id: self.id@, method: self.method@, params: self.params@ }
    }
}

/// The outcome of one request. `payload` holds the result as JSON text.
#[derive(Debug, Clone, PartialEq, Eq)]
pub struct Response {
    pub id: String,
    pub status: u16,
    pub message: String,
    pub payload: String,
}

/// What a `Response` is, as plain text.
pub struct ResponseView {
    pub id: Seq<char>,
    pub status: u16,
    pub message: Seq<char>,
    pub payload: Seq<char>,
}

impl View for Response {
    type V = ResponseView;

    open spec fn view(&self) -> ResponseView {
        ResponseView {
            id: self.id@,
            status: self.status,
            message: self.message@,
            payload: self.payload@,
        }
    }
}

/// The response to a request that `payload` answers.
pub open spec fn success_response(id: Seq<char>, payload: Seq<char>) -> ResponseView {
    ResponseView { id, status: STATUS_OK, message: Seq::empty(), payload }
}

/// The response to a request for a method that nobody registered.
pub open spec fn not_found_response(id: Seq<char>) -> ResponseView {
    ResponseView {
        id,
        status: STATUS_NOT_FOUND,
        message: not_found_message(),
        payload: null_payload(),
    }
}

/// The response to a request whose handler failed with `message`.
pub open spec fn failure_response(id: Seq<char>, message: Seq<char>) -> ResponseView {
    ResponseView {
        id,
        status: STATUS_INTERNAL_ERROR,
        message: if message.len() == 0 {
            internal_error_message()
        } else {
            message
        },
        payload: null_payload(),
    }
}

/// The response that stands in for one that never came.
pub open spec fn internal_error_response(id: Seq<char>) -> ResponseView {
    failure_response(id, internal_error_message())
}

/// The response to a request that could not be handed to the event loop.
pub open spec fn event_loop_closed_response(id: Seq<char>) -> ResponseView {
    failure_response(id, event_loop_closed_message())
}

impl Request {
    /// A request for `method` with the arguments `params`.
    pub fn new(id: String, method: String, params: String) -> (request: Request)
        ensures
            request@ == (RequestView { id: id@, method: method@, params: params@ }),
    {
        Request { id, method, params }
    }

    /// A copy of this request.
    pub fn duplicate(&self) -> (copy: Request)
        ensures
            copy@ == self@,
    {
        Request { id: self.id.clone(), method: self.method.clone(), params: self.params.clone() }
    }
}

impl Response {
    /// The response that reports success with `payload`.
    pub fn success(id: String, payload: String) -> (response: Response)
        ensures
            response@ == success_response(id@, payload@),
    {
        Response { id, status: STATUS_OK, message: String::new(), payload }
    }

    /// The response that reports an unknown method.
    pub fn not_found(id: String) -> (response: Response)
        ensures
            response@ == not_found_response(id@),
    {
        Response {
            id,
            status: STATUS_NOT_FOUND,
            message: "method not found".to_owned(),
            payload: "null".to_owned(),
        }
    }

    /// The response that reports a failure. A failure without a message is
    /// reported with the message of an internal error.
    pub fn failure(id: String, message: String) -> (response: Response)
        ensures
            response@ == failure_response(id@, message@),
    {
        let message = if message.as_str().is_empty() {
            "Internal server error".to_owned()
        } else {
            message
        };
        Response { id, status: STATUS_INTERNAL_ERROR, message, payload: "null".to_owned() }
    }

    /// The response that stands in for one that never came.
    pub fn internal_error(id: String) -> (response: Response)
        ensures
            response@ == internal_error_response(id@),
    {
        Response::failure(id, "Internal server error".to_owned())
    }

    /// The response to a request that could not be handed to the event loop.
    pub fn event_loop_closed(id: String) -> (response: Response)
        ensures
            response@ == event_loop_closed_response(id@),
    {
        Response::failure(id, "event loop closed".to_owned())
    }

    /// Whether this response reports success.
    pub fn is_success(&self) -> (ok: bool)
        ensures
            ok == status_is_success(self.status),
    {
        is_success(self.status)
    }

    /// A copy of this response.
    pub fn duplicate(&self) -> (copy: Response)
        ensures
            copy@ == self@,
    {
        Response {
            id: self.id.clone(),
            status: self.status,
            message: self.message.clone(),
            payload: self.payload.clone(),
        }
    }
}

/// A response to a failed request never reports success and always carries
/// a message.
pub proof fn lemma_failure_is_reported(id: Seq<char>, message: Seq<char>)
    ensures
        !status_is_success(failure_response(id, message).status),
        failure_response(id, message).message.len() > 0,
        failure_response(id, message).id == id,
{
    reveal_strlit("Internal server error");
}

/// A response to a request for an unknown method never reports success: its
/// status is 404.
pub proof fn lemma_not_found_is_reported(id: Seq<char>)
    ensures
        !status_is_success(not_found_response(id).status),
        not_found_response(id).status == 404,
        not_found_response(id).id == id,
{
}

} // verus!
