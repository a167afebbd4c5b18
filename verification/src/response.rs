//! Responses, and the handler that answers a request.

use vstd::prelude::*;
use vstd::string::*;
use crate::payload::{api, greeting_body};
use crate::routing::Method;
use crate::text::same_text;

verus! {

/// The status, the `Content-Type` header and the body of a response.
#[derive(Debug)]
pub struct Response {
    pub status: u16,
    pub content_type: Option<String>,
    pub body: String,
}

/// The mathematical value of a response.
pub struct ResponseView {
    pub status: u16,
    pub content_type: Option<Seq<char>>,
    pub body: Seq<char>,
}

impl View for Response {
    type V = ResponseView;

    open spec fn view(&self) -> ResponseView {
        ResponseView {
            status: self.status,
            content_type: match self.content_type {
                Some(value) => Some(value@),
                None => None,
            },
            body: self.body@,
        }
    }
}

/// The path of the only route: the prefix `/api` followed by `/hello-world`.
pub open spec fn greeting_path() -> Seq<char> {
    "/api/hello-world"@
}

/// A 200 response that carries `body` as JSON.
pub open spec fn json_response(body: Seq<char>) -> ResponseView {
    ResponseView { status: 200, content_type: Some("application/json"@), body }
}

/// The 404 response: plain text, no `Content-Type` header.
pub open spec fn not_found_response() -> ResponseView {
    ResponseView { status: 404, content_type: None, body: "Not Found"@ }
}

/// Whether a request asks for the greeting: a GET of the greeting path.
pub open spec fn is_greeting_request(method: Method, path: Seq<char>) -> bool {
    method == Method::Get && path == greeting_path()
}

/// The response owed to a request.
pub open spec fn response_for(method: Method, path: Seq<char>) -> ResponseView {
    if is_greeting_request(method, path) {
        json_response(greeting_body())
    } else {
        not_found_response()
    }
}

impl Response {
    /// A 200 response with a JSON body.
    pub fn json(body: String) -> (response: Response)
        ensures
            response@ == json_response(body@),
    {
        Response { status: 200, content_type: Some(String::from_str("application/json")), body }
    }

    /// The 404 response.
    pub fn not_found() -> (response: Response)
        ensures
            response@ == not_found_response(),
    {
        Response { status: 404, content_type: None, body: String::from_str("Not Found") }
    }
}

/// Answers one request. A GET of `/api/hello-world` gets status 200, the
/// header `Content-Type: application/json` and the greeting as JSON; any other
/// path, and any other method on that path, gets the 404 response.
pub fn hello_world(method: Method, path: &str) -> (response: Response)
    ensures
        response@ == response_for(method, path@),
        is_greeting_request(method, path@) ==> response@.status == 200
            && response@.content_type == Some("application/json"@)
            && response@.body == greeting_body(),
        !is_greeting_request(method, path@) <==> response@.status == 404,
{
    if method == Method::Get && same_text(path, "/api/hello-world") {
        Response::json(api().to_json())
    } else {
        Response::not_found()
    }
}

/// A request is answered from its method and path alone: two answers to the
/// same request are equal, whatever was served in between.
pub proof fn lemma_answers_repeat(
    method: Method,
    path: Seq<char>,
    first: ResponseView,
    second: ResponseView,
)
    requires
        first == response_for(method, path),
        second == response_for(method, path),
    ensures
        first == second,
        first.body == second.body,
{
}

/// Every request gets one of two statuses, and 200 goes to the greeting
/// request only.
pub proof fn lemma_status_is_200_or_404(method: Method, path: Seq<char>)
    ensures
        response_for(method, path).status == 200 || response_for(method, path).status == 404,
        response_for(method, path).status == 200 <==> is_greeting_request(method, path),
{
}

} // verus!
