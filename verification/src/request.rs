//! A GraphQL request as it arrives over HTTP, and the ways in which one can
//! be unusable before execution starts.

use crate::query_string::{param, query_param};
use crate::text::utf8_text;
use vstd::prelude::*;
use vstd::string::StringSliceAdditionalSpecFns;
use vstd::utf8::{decode_utf8, valid_utf8};

verus! {

/// Why a request is answered with `400 Bad Request`.
#[derive(Debug, Clone, Copy, PartialEq, Eq, Structural)]
pub enum RequestError {
    /// The request names no query.
    MissingQuery,
    /// A parameter of the query string is not text.
    MalformedQuery,
    /// The variables are not a JSON object.
    InvalidVariables,
    /// The body was sent as something other than JSON.
    UnsupportedContentType,
    /// The body is not a JSON object of the expected shape.
    InvalidBody,
}

/// What a [`GraphqlRequest`] holds, as mathematical text.
pub struct RequestView {
    pub query: Seq<char>,
    pub operation_name: Option<Seq<char>>,
    pub variables: Option<Seq<char>>,
}

/// A request to execute: the document, the name of the operation to run when
/// the document holds several, and the variables as JSON text.
#[derive(Debug, PartialEq, Eq)]
pub struct GraphqlRequest {
    pub query: String,
    pub operation_name: Option<String>,
    pub variables: Option<String>,
}

/// The text of an optional string.
pub open spec fn text_view(text: Option<String>) -> Option<Seq<char>> {
    match text {
        Some(t) => Some(t@),
        None => None,
    }
}

impl View for GraphqlRequest {
    type V = RequestView;

    open spec fn view(&self) -> RequestView {
        RequestView {
            query: self.query@,
            operation_name: text_view(self.operation_name),
            variables: text_view(self.variables),
        }
    }
}

impl GraphqlRequest {
    /// Puts a request together from its parts, as a decoded JSON body gives
    /// them. Without a query there is no request.
    pub fn from_parts(
        query: Option<String>,
        operation_name: Option<String>,
        variables: Option<String>,
    ) -> (request: Result<GraphqlRequest, RequestError>)
        ensures
            match request {
                Ok(r) => query == Some(r.query) && r.operation_name == operation_name
                    && r.variables == variables,
                Err(error) => query.is_none() && error == RequestError::MissingQuery,
            },
    {
        match query {
            Some(query) => Ok(GraphqlRequest { query, operation_name, variables }),
            None => Err(RequestError::MissingQuery),
        }
    }
}

/// Whether a parameter, if it is there at all, is valid UTF-8.
pub open spec fn readable(value: Option<Seq<u8>>) -> bool {
    value matches Some(bytes) ==> valid_utf8(bytes)
}

/// The text of a parameter that is valid UTF-8.
pub open spec fn text_of(value: Option<Seq<u8>>) -> Option<Seq<char>> {
    match value {
        Some(bytes) => Some(decode_utf8(bytes)),
        None => None,
    }
}

/// The request that a query string stands for: its parameters `query`,
/// `operationName` and `variables`. Without `query` there is no request; with
/// it, each of the three that is present has to be text.
pub open spec fn request_of(query_string: Seq<u8>) -> Result<RequestView, RequestError> {
    let query = param(query_string, "query".spec_bytes());
    let operation_name = param(query_string, "operationName".spec_bytes());
    let variables = param(query_string, "variables".spec_bytes());
    match query {
        None => Err(RequestError::MissingQuery),
        Some(document) => if valid_utf8(document) && readable(operation_name) && readable(
            variables,
        ) {
            Ok(
                RequestView {
                    query: decode_utf8(document),
                    operation_name: text_of(operation_name),
                    variables: text_of(variables),
                },
            )
        } else {
            Err(RequestError::MalformedQuery)
        },
    }
}

/// Reads one optional text parameter of a query string. The outer `None`
/// says that the parameter is there and is not text.
fn text_param(query_string: &[u8], name: &str) -> (value: Option<Option<String>>)
    ensures
        match value {
            Some(text) => readable(param(query_string@, name.spec_bytes())) && text_view(text)
                == text_of(param(query_string@, name.spec_bytes())),
            None => !readable(param(query_string@, name.spec_bytes())),
        },
{
    match query_param(query_string, name.as_bytes()) {
        None => Some(None),
        Some(bytes) => match utf8_text(bytes) {
            Some(text) => Some(Some(text)),
            None => None,
        },
    }
}

/// Decodes the query string of a `GET` request into the request it stands
/// for.
pub fn decode_query_string(query_string: &str) -> (decoded: Result<GraphqlRequest, RequestError>)
    ensures
        match decoded {
            Ok(request) => request_of(query_string.spec_bytes()) == Ok::<RequestView, RequestError>(
                request@,
            ),
            Err(error) => request_of(query_string.spec_bytes()) == Err::<RequestView, RequestError>(
                error,
            ),
        },
{
    let bytes = query_string.as_bytes();
    let query = match text_param(bytes, "query") {
        Some(Some(text)) => text,
        Some(None) => {
            return Err(RequestError::MissingQuery);
        },
        None => {
            return Err(RequestError::MalformedQuery);
        },
    };
    let operation_name = match text_param(bytes, "operationName") {
        Some(text) => text,
        None => {
            return Err(RequestError::MalformedQuery);
        },
    };
    let variables = match text_param(bytes, "variables") {
        Some(text) => text,
        None => {
            return Err(RequestError::MalformedQuery);
        },
    };
    Ok(GraphqlRequest { query, operation_name, variables })
}

/// `;`, which ends a media type and opens its parameters.
pub const SEMICOLON: u8 = 0x3B;

/// A horizontal tab.
pub const TAB: u8 = 0x09;

/// An ASCII letter in lower case; any other byte as it is.
pub open spec fn lower(b: u8) -> u8 {
    if 0x41 <= b <= 0x5A {
        (b + 0x20) as u8
    } else {
        b
    }
}

/// Whether `prefix` opens `s`, the case of ASCII letters aside.
pub open spec fn opens_with(s: Seq<u8>, prefix: Seq<u8>) -> bool {
    &&& prefix.len() <= s.len()
    &&& forall|i: int| 0 <= i < prefix.len() ==> lower(#[trigger] s[i]) == lower(prefix[i])
}

/// Whether a `Content-Type` announces JSON: the media type
/// `application/json` in any case, alone or followed by parameters.
pub open spec fn announces_json(content_type: Seq<u8>) -> bool {
    let json = "application/json".spec_bytes();
    &&& opens_with(content_type, json)
    &&& (content_type.len() == json.len() || content_type[json.len() as int] == SEMICOLON
        || content_type[json.len() as int] == 0x20 || content_type[json.len() as int] == TAB)
}

/// An ASCII letter in lower case; any other byte as it is.
fn to_lower(b: u8) -> (l: u8)
    ensures
        l == lower(b),
{
    if 0x41 <= b && b <= 0x5A {
        b + 0x20
    } else {
        b
    }
}

/// Whether `prefix` opens `s`, the case of ASCII letters aside.
pub fn has_prefix(s: &[u8], prefix: &[u8]) -> (opens: bool)
    ensures
        opens == opens_with(s@, prefix@),
{
    if s.len() < prefix.len() {
        return false;
    }
    let mut i: usize = 0;
    while i < prefix.len()
        invariant
            i <= prefix@.len() <= s@.len(),
            forall|k: int| 0 <= k < i ==> lower(#[trigger] s@[k]) == lower(prefix@[k]),
        decreases prefix@.len() - i,
    {
        if to_lower(s[i]) != to_lower(prefix[i]) {
            assert(lower(s@[i as int]) != lower(prefix@[i as int]));
            return false;
        }
        i += 1;
    }
    true
}

/// Whether the body of a `POST` request with this `Content-Type` is to be
/// read as JSON. A request without the header is not.
pub fn accepts_content_type(content_type: Option<&str>) -> (accepted: bool)
    ensures
        accepted == match content_type {
            Some(value) => announces_json(value.spec_bytes()),
            None => false,
        },
{
    let value = match content_type {
        Some(value) => value.as_bytes(),
        None => {
            return false;
        },
    };
    let json = "application/json".as_bytes();
    has_prefix(value, json) && (value.len() == json.len() || value[json.len()] == SEMICOLON
        || value[json.len()] == 0x20 || value[json.len()] == TAB)
}

} // verus!
