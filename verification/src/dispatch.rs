//! The front door: which request goes where, and what the server does next.
//!
//! | Method | Path       | What happens                                  |
//! |--------|------------|-----------------------------------------------|
//! | `GET`  | `/`        | the playground page                           |
//! | `GET`  | `/graphql` | the request in the query string is executed   |
//! | `POST` | `/graphql` | the request in the JSON body is executed      |
//! | other  | other      | `404 Not Found`                               |

use crate::request::{accepts_content_type, announces_json, decode_query_string, request_of};
use crate::request::{GraphqlRequest, RequestError, RequestView};
use crate::response::{bad_request_view, executed_view, not_found_view, playground_view};
use crate::response::{Outcome, Response, ResponseView};
use crate::text::{reads, text_eq};
use vstd::prelude::*;
use vstd::string::StringSliceAdditionalSpecFns;

verus! {

/// Where a request goes.
#[derive(Debug, Clone, Copy, PartialEq, Eq, Structural)]
pub enum Route {
    /// `GET /`.
    Playground,
    /// `GET /graphql`.
    GraphqlGet,
    /// `POST /graphql`.
    GraphqlPost,
    /// Everything else.
    NotFound,
}

/// The routing table. Method and path are compared as they stand: methods
/// are upper case, and a path has neither query nor trailing slash.
pub open spec fn route_of(method: Seq<char>, path: Seq<char>) -> Route {
    if reads(method, "GET"@) && reads(path, "/"@) {
        Route::Playground
    } else if reads(method, "GET"@) && reads(path, "/graphql"@) {
        Route::GraphqlGet
    } else if reads(method, "POST"@) && reads(path, "/graphql"@) {
        Route::GraphqlPost
    } else {
        Route::NotFound
    }
}

/// Routes a request by its method and the path of its target.
pub fn route(method: &str, path: &str) -> (to: Route)
    ensures
        to == route_of(method@, path@),
{
    let get = text_eq(method, "GET");
    let post = text_eq(method, "POST");
    let root = text_eq(path, "/");
    let graphql = text_eq(path, "/graphql");
    if get && root {
        Route::Playground
    } else if get && graphql {
        Route::GraphqlGet
    } else if post && graphql {
        Route::GraphqlPost
    } else {
        Route::NotFound
    }
}

/// What the server does next with a request.
#[derive(Debug, PartialEq, Eq)]
pub enum Step {
    /// Send this answer; the request is done.
    Reply(Response),
    /// Execute this request against the schema.
    Execute(GraphqlRequest),
    /// Read the body and decode it as the JSON form of a request.
    ReadBody,
}

/// What a [`Step`] holds, as mathematical text.
pub enum StepView {
    Reply(ResponseView),
    Execute(RequestView),
    ReadBody,
}

impl View for Step {
    type V = StepView;

    open spec fn view(&self) -> StepView {
        match self {
            Step::Reply(response) => StepView::Reply(response@),
            Step::Execute(request) => StepView::Execute(request@),
            Step::ReadBody => StepView::ReadBody,
        }
    }
}

/// The bytes of the query string of a request target; a target without one
/// has the empty query string.
pub open spec fn query_bytes(query_string: Option<&str>) -> Seq<u8> {
    match query_string {
        Some(text) => text.spec_bytes(),
        None => Seq::empty(),
    }
}

/// Whether the `Content-Type` of a request, if it has one, announces JSON.
pub open spec fn json_announced(content_type: Option<&str>) -> bool {
    match content_type {
        Some(value) => announces_json(value.spec_bytes()),
        None => false,
    }
}

/// The step that each request calls for. A `GET` on the endpoint carries its
/// request in the query string and is executed or refused at once; a `POST`
/// has to announce JSON before its body is read.
pub open spec fn step_of(
    method: Seq<char>,
    path: Seq<char>,
    query_string: Option<&str>,
    content_type: Option<&str>,
) -> StepView {
    match route_of(method, path) {
        Route::Playground => StepView::Reply(playground_view()),
        Route::GraphqlGet => match request_of(query_bytes(query_string)) {
            Ok(request) => StepView::Execute(request),
            Err(error) => StepView::Reply(bad_request_view(error)),
        },
        Route::GraphqlPost => if json_announced(content_type) {
            StepView::ReadBody
        } else {
            StepView::Reply(bad_request_view(RequestError::UnsupportedContentType))
        },
        Route::NotFound => StepView::Reply(not_found_view()),
    }
}

/// `GET /` is answered at once with `200` and an HTML page, whatever else the
/// request carries.
pub proof fn law_root_serves_playground(query_string: Option<&str>, content_type: Option<&str>)
    ensures
        step_of("GET"@, "/"@, query_string, content_type) matches StepView::Reply(response)
            && response.status == 200 && response.content_type == Some("text/html; charset=utf-8"@),
{
}

/// A request that the table does not name is answered at once with `404`, no
/// content type and an empty body.
pub proof fn law_unrouted_is_not_found(
    method: Seq<char>,
    path: Seq<char>,
    query_string: Option<&str>,
    content_type: Option<&str>,
)
    requires
        !(method == "GET"@ && path == "/"@),
        !(method == "GET"@ && path == "/graphql"@),
        !(method == "POST"@ && path == "/graphql"@),
    ensures
        step_of(method, path, query_string, content_type) matches StepView::Reply(response)
            && response.status == 404 && response.content_type.is_none() && response.body.len()
            == 0,
{
}

/// On the endpoint a request is never answered with `404`: a `GET` is
/// executed or refused with `400`, a `POST` has its body read or is refused
/// with `400`.
pub proof fn law_endpoint_executes_or_refuses(
    method: Seq<char>,
    query_string: Option<&str>,
    content_type: Option<&str>,
)
    requires
        method == "GET"@ || method == "POST"@,
    ensures
        match step_of(method, "/graphql"@, query_string, content_type) {
            StepView::Reply(response) => response.status == 400 && response.content_type == Some(
                "application/json"@,
            ),
            StepView::Execute(_) => method == "GET"@,
            StepView::ReadBody => method == "POST"@,
        },
{
    reveal_strlit("GET");
    reveal_strlit("POST");
    reveal_strlit("/");
    reveal_strlit("/graphql");
}

/// Whatever the executor made of a request, the answer is `200` with a JSON
/// body.
pub proof fn law_executed_is_ok_json(outcome: Outcome)
    ensures
        executed_view(outcome).status == 200,
        executed_view(outcome).content_type == Some("application/json"@),
{
}

/// Decides what to do with a request, given its method, the path and the
/// query string of its target, and its `Content-Type` header.
pub fn dispatch(
    method: &str,
    path: &str,
    query_string: Option<&str>,
    content_type: Option<&str>,
) -> (step: Step)
    ensures
        step@ == step_of(method@, path@, query_string, content_type),
{
    match route(method, path) {
        Route::Playground => Step::Reply(Response::playground()),
        Route::GraphqlGet => {
            let text = match query_string {
                Some(text) => text,
                None => "",
            };
            proof {
                if query_string.is_none() {
                    reveal_strlit("");
                    assert("".spec_bytes() =~= Seq::<u8>::empty());
                }
            }
            match decode_query_string(text) {
                Ok(request) => Step::Execute(request),
                Err(error) => Step::Reply(Response::bad_request(error)),
            }
        },
        Route::GraphqlPost => if accepts_content_type(content_type) {
            Step::ReadBody
        } else {
            Step::Reply(Response::bad_request(RequestError::UnsupportedContentType))
        },
        Route::NotFound => Step::Reply(Response::not_found()),
    }
}

} // verus!
