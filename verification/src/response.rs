//! The answers that the server gives: status, content type and body.

use crate::request::{text_view, RequestError};
use vstd::prelude::*;
use vstd::string::StringExecFns;

verus! {

/// `200 OK`.
pub const OK: u16 = 200;

/// `400 Bad Request`.
pub const BAD_REQUEST: u16 = 400;

/// `404 Not Found`.
pub const NOT_FOUND: u16 = 404;

/// The path at which GraphQL requests are executed.
pub open spec fn endpoint() -> Seq<char> {
    "/graphql"@
}

/// The content type of the playground page.
pub open spec fn html() -> Seq<char> {
    "text/html; charset=utf-8"@
}

/// The content type of every answer of the GraphQL endpoint.
pub open spec fn json() -> Seq<char> {
    "application/json"@
}

/// What a [`Response`] holds, as mathematical text.
pub struct ResponseView {
    pub status: u16,
    pub content_type: Option<Seq<char>>,
    pub body: Seq<char>,
}

/// An answer to one request.
#[derive(Debug, PartialEq, Eq)]
pub struct Response {
    pub status: u16,
    pub content_type: Option<String>,
    pub body: String,
}

impl View for Response {
    type V = ResponseView;

    open spec fn view(&self) -> ResponseView {
        ResponseView {
            status: self.status,
            content_type: text_view(self.content_type),
            body: self.body@,
        }
    }
}

/// The page that `juniper::graphiql::graphiql_source` writes for an endpoint:
/// an HTML document that hosts the GraphiQL editor and sends what is typed
/// there to that endpoint.
pub uninterp spec fn graphiql_page(endpoint: Seq<char>) -> Seq<char>;

/// `juniper::graphiql::graphiql_source`. The page depends on the endpoint
/// alone: fixed markup with the endpoint's text set into it.
#[verifier::external_body]
fn graphiql_source(endpoint: &str) -> (page: String)
    ensures
        page@ == graphiql_page(endpoint@),
{
    juniper::graphiql::graphiql_source(endpoint)
}

/// What happened to a request that reached the executor, each part already
/// as JSON text.
#[derive(Debug, PartialEq, Eq)]
pub enum Outcome {
    /// The document ran. `data` is its result; `errors` holds one entry for
    /// each field that failed.
    Executed { data: String, errors: Vec<String> },
    /// The document did not parse or did not fit the schema, and nothing ran.
    Rejected { errors: Vec<String> },
}

/// The texts of `items`, with a comma between each two.
pub open spec fn joined(items: Seq<String>) -> Seq<char>
    decreases items.len(),
{
    if items.len() == 0 {
        Seq::empty()
    } else if items.len() == 1 {
        items[0]@
    } else {
        joined(items.drop_last()) + ","@ + items.last()@
    }
}

/// The member `"errors":[..]` of an envelope.
pub open spec fn errors_member(errors: Seq<String>) -> Seq<char> {
    "\"errors\":["@ + joined(errors) + "]"@
}

/// The body that reports an outcome: a JSON object with the result under
/// `data` and the errors under `errors`. Without errors there is no `errors`
/// member; where nothing ran there is no `data` member.
pub open spec fn envelope(outcome: Outcome) -> Seq<char> {
    match outcome {
        Outcome::Executed { data, errors } => if errors@.len() == 0 {
            "{\"data\":"@ + data@ + "}"@
        } else {
            "{\"data\":"@ + data@ + ","@ + errors_member(errors@) + "}"@
        },
        Outcome::Rejected { errors } => "{"@ + errors_member(errors@) + "}"@,
    }
}

/// What is wrong with a request, in words.
pub open spec fn message(error: RequestError) -> Seq<char> {
    match error {
        RequestError::MissingQuery => "missing query"@,
        RequestError::MalformedQuery => "malformed query"@,
        RequestError::InvalidVariables => "invalid variables"@,
        RequestError::UnsupportedContentType => "unsupported content type"@,
        RequestError::InvalidBody => "invalid request body"@,
    }
}

/// The body that reports an unusable request: a JSON object with one error
/// that carries the message.
pub open spec fn error_body(error: RequestError) -> Seq<char> {
    "{\"errors\":[{\"message\":\""@ + message(error) + "\"}]}"@
}

/// The answer to `GET /`: the playground page.
pub open spec fn playground_view() -> ResponseView {
    ResponseView { status: OK, content_type: Some(html()), body: graphiql_page(endpoint()) }
}

/// The answer to a request that no route serves: no content type, no body.
pub open spec fn not_found_view() -> ResponseView {
    ResponseView { status: NOT_FOUND, content_type: None, body: Seq::empty() }
}

/// The answer to an unusable request.
pub open spec fn bad_request_view(error: RequestError) -> ResponseView {
    ResponseView { status: BAD_REQUEST, content_type: Some(json()), body: error_body(error) }
}

/// The answer to a request that reached the executor. The status is `200`
/// whether or not there are errors: they are reported in the body.
pub open spec fn executed_view(outcome: Outcome) -> ResponseView {
    ResponseView { status: OK, content_type: Some(json()), body: envelope(outcome) }
}

/// Joins JSON texts with commas.
fn join(items: &Vec<String>) -> (out: String)
    ensures
        out@ == joined(items@),
{
    let mut out = String::new();
    let mut i: usize = 0;
    while i < items.len()
        invariant
            i <= items@.len(),
            out@ == joined(items@.take(i as int)),
        decreases items@.len() - i,
    {
        let ghost before = items@.take(i as int);
        let ghost now = items@.take(i + 1);
        assert(now.drop_last() =~= before);
        assert(now.last() == items@[i as int]);
        if i > 0 {
            out.append(",");
        } else {
            assert(Seq::<char>::empty() + items@[0]@ =~= items@[0]@);
        }
        out.append(items[i].as_str());
        i += 1;
    }
    assert(items@.take(items@.len() as int) =~= items@);
    out
}

/// Writes the member `"errors":[..]`.
fn write_errors(out: &mut String, errors: &Vec<String>)
    ensures
        final(out)@ == old(out)@ + errors_member(errors@),
{
    let ghost before = out@;
    let list = join(errors);
    out.append("\"errors\":[");
    out.append(list.as_str());
    out.append("]");
    assert(out@ =~= before + errors_member(errors@));
}

/// Writes the body that reports an outcome.
pub fn write_envelope(outcome: &Outcome) -> (body: String)
    ensures
        body@ == envelope(*outcome),
{
    let mut body = String::new();
    match outcome {
        Outcome::Executed { data, errors } => {
            body.append("{\"data\":");
            body.append(data.as_str());
            if errors.len() > 0 {
                body.append(",");
                write_errors(&mut body, errors);
            }
            body.append("}");
            assert(body@ =~= envelope(*outcome));
        },
        Outcome::Rejected { errors } => {
            body.append("{");
            write_errors(&mut body, errors);
            body.append("}");
            assert(body@ =~= envelope(*outcome));
        },
    }
    body
}

/// The words for what is wrong with a request.
pub fn message_of(error: RequestError) -> (text: &'static str)
    ensures
        text@ == message(error),
{
    match error {
        RequestError::MissingQuery => "missing query",
        RequestError::MalformedQuery => "malformed query",
        RequestError::InvalidVariables => "invalid variables",
        RequestError::UnsupportedContentType => "unsupported content type",
        RequestError::InvalidBody => "invalid request body",
    }
}

impl Response {
    /// The answer to `GET /`: the playground page, as HTML.
    pub fn playground() -> (response: Response)
        ensures
            response@ == playground_view(),
    {
        Response {
            status: OK,
            content_type: Some("text/html; charset=utf-8".to_owned()),
            body: graphiql_source("/graphql"),
        }
    }

    /// The answer to a request that no route serves.
    pub fn not_found() -> (response: Response)
        ensures
            response@ == not_found_view(),
    {
        Response { status: NOT_FOUND, content_type: None, body: String::new() }
    }

    /// The answer to an unusable request.
    pub fn bad_request(error: RequestError) -> (response: Response)
        ensures
            response@ == bad_request_view(error),
    {
        let mut body = String::new();
        body.append("{\"errors\":[{\"message\":\"");
        body.append(message_of(error));
        body.append("\"}]}");
        assert(body@ =~= error_body(error));
        Response { status: BAD_REQUEST, content_type: Some("application/json".to_owned()), body }
    }

    /// The answer to a request that reached the executor.
    pub fn executed(outcome: &Outcome) -> (response: Response)
        ensures
            response@ == executed_view(*outcome),
    {
        Response {
            status: OK,
            content_type: Some("application/json".to_owned()),
            body: write_envelope(outcome),
        }
    }
}

} // verus!
