//! The inference gateway: routing of authenticated requests and the exact
//! responses of the two routes, the health endpoint and the generation
//! endpoint.

use vstd::prelude::*;
use vstd::string::StringExecFns;
use crate::auth::{authorize, credential_matches, header_view};

verus! {

/// An HTTP response of the gateway: a status code and a body.
#[derive(Clone, Debug, PartialEq, Eq)]
pub struct Response {
    pub status: u16,
    pub body: String,
}

/// The routes the gateway serves. A generation request carries the prompt
/// text already extracted from the request body.
#[derive(Clone, Debug, PartialEq, Eq)]
pub enum Route {
    Health,
    Generate(String),
}

/// What the gateway decides for one request: either a finished response, or
/// an instruction to call the runtime's generation API with the given prompt
/// and then complete the request with `generation_response`.
#[derive(Clone, Debug, PartialEq, Eq)]
pub enum Outcome {
    Reply(Response),
    CallRuntime(String),
}

/// The fixed body of the health endpoint.
pub open spec fn greeting() -> Seq<char> {
    "Hello! Send a POST request to /generate with your prompt."@
}

/// The body of a failed generation: the fixed prefix followed by the
/// upstream error text.
pub open spec fn error_body(upstream: Seq<char>) -> Seq<char> {
    "Error: "@ + upstream
}

/// The response of the health endpoint once past the auth gate: always 200
/// with the fixed greeting.
pub fn health_response() -> (r: Response)
    ensures
        r.status == 200,
        r.body@ == greeting(),
{
    Response { status: 200, body: "Hello! Send a POST request to /generate with your prompt.".to_owned() }
}

/// The response of the auth gate to a missing or mismatching credential:
/// 401 with an empty body.
pub fn unauthorized_response() -> (r: Response)
    ensures
        r.status == 401,
        r.body@.len() == 0,
{
    Response { status: 401, body: String::new() }
}

/// Turn the outcome of the runtime's generation call into the gateway's
/// response: on success 200 with exactly the generated text, on failure 500
/// with a body that carries the upstream error text.
pub fn generation_response(outcome: Result<String, String>) -> (r: Response)
    ensures
        outcome matches Ok(text) ==> r.status == 200 && r.body@ == text@,
        outcome matches Err(e) ==> r.status == 500 && r.body@ == error_body(e@),
{
    match outcome {
        Ok(text) => Response { status: 200, body: text },
        Err(e) => Response { status: 500, body: "Error: ".to_owned().concat(e.as_str()) },
    }
}

/// The body of a failed generation ends with the upstream error text, so
/// that text is contained in the body the caller sees.
pub proof fn lemma_error_body_contains_upstream(upstream: Seq<char>)
    ensures
        error_body(upstream).len() >= upstream.len(),
        error_body(upstream).subrange(
            error_body(upstream).len() - upstream.len(),
            error_body(upstream).len() as int,
        ) == upstream,
{
    assert(error_body(upstream).subrange(
        error_body(upstream).len() - upstream.len(),
        error_body(upstream).len() as int,
    ) =~= upstream);
}

/// Decide one request. The auth gate runs first, whatever the route: a
/// missing or mismatching credential is answered 401 with an empty body and
/// nothing downstream is reached. With a matching credential, the health
/// route is answered 200 with the fixed greeting, and a generation route
/// hands the prompt on to the runtime unchanged.
pub fn handle_request(secret: &String, header: Option<&String>, route: Route) -> (o: Outcome)
    ensures
        !credential_matches(secret@, header_view(header)) ==> (o matches Outcome::Reply(r)
            && r.status == 401 && r.body@.len() == 0),
        credential_matches(secret@, header_view(header)) && route is Health ==> (
            o matches Outcome::Reply(r) && r.status == 200 && r.body@ == greeting()),
        credential_matches(secret@, header_view(header)) ==> (route matches Route::Generate(t)
            ==> o == Outcome::CallRuntime(t)),
{
    if !authorize(secret, header) {
        Outcome::Reply(unauthorized_response())
    } else {
        match route {
            Route::Health => Outcome::Reply(health_response()),
            Route::Generate(text) => Outcome::CallRuntime(text),
        }
    }
}

} // verus!
