//! Requests and responses as plain values.

use crate::error::{status_of, PanelError};
use vstd::prelude::*;

verus! {

/// Status of a request that was served.
pub const OK: u16 = 200;

/// Status of a request that came without the current session.
pub const FORBIDDEN: u16 = 403;

/// Status of a request that names nothing the server has.
pub const NOT_FOUND: u16 = 404;

/// Status of a request that failed inside the server.
pub const INTERNAL_SERVER_ERROR: u16 = 500;

/// The request methods that the dispatch tells apart.
#[derive(Debug, Clone, Copy, PartialEq, Eq, Structural)]
pub enum Method {
    Get,
    Post,
    Other,
}

/// One header line of a response.
#[derive(Debug, Clone, PartialEq)]
pub struct Header {
    pub name: String,
    pub value: String,
}

/// A complete response: status, header lines in order, body text.
#[derive(Debug, Clone, PartialEq)]
pub struct Response {
    pub status: u16,
    pub headers: Vec<Header>,
    pub body: String,
}

/// What a response holds.
pub struct ResponseView {
    pub status: u16,
    pub headers: Seq<(Seq<char>, Seq<char>)>,
    pub body: Seq<char>,
}

impl View for Response {
    type V = ResponseView;

    open spec fn view(&self) -> ResponseView {
        ResponseView {
            status: self.status,
            headers: Seq::new(
                self.headers.len() as nat,
                |i: int| (self.headers[i].name@, self.headers[i].value@),
            ),
            body: self.body@,
        }
    }
}

/// The answer to an API request without the current session: 403 and a
/// body that says so, no headers.
pub open spec fn forbidden() -> ResponseView {
    ResponseView { status: FORBIDDEN, headers: Seq::empty(), body: "{\"success\": false}"@ }
}

/// The answer to a request that failed inside the server: 500 and a body
/// that gives nothing away, no headers.
pub open spec fn internal_error() -> ResponseView {
    ResponseView {
        status: INTERNAL_SERVER_ERROR,
        headers: Seq::empty(),
        body: "Internal server error"@,
    }
}

/// The answer to a failure: `forbidden` for a missing or wrong session,
/// `internal_error` for everything else. No text of the failure reaches
/// the client.
pub open spec fn failure(e: PanelError) -> ResponseView {
    if e is Unauthorized {
        forbidden()
    } else {
        internal_error()
    }
}

/// The answer to a listing request: status 200, the JSON text as the body,
/// JSON as the content type.
pub open spec fn listing(text: Seq<char>) -> ResponseView {
    ResponseView {
        status: OK,
        headers: seq![("content-type"@, "application/json"@)],
        body: text,
    }
}

/// The answer to a launch that went through.
pub open spec fn starting() -> ResponseView {
    ResponseView { status: OK, headers: Seq::empty(), body: "Starting game!"@ }
}

/// The answer to a password check: status 200, the verdict in the body,
/// and `token` in the headers `set-cookie` and `sam-token`.
pub open spec fn login(success: bool, token: Seq<char>) -> ResponseView {
    ResponseView {
        status: OK,
        headers: seq![("set-cookie"@, token), ("sam-token"@, token)],
        body: if success {
            "{\"success\":true}"@
        } else {
            "{\"success\":false}"@
        },
    }
}

/// The answer to a request for an endpoint that does not exist.
pub open spec fn not_found() -> ResponseView {
    ResponseView { status: NOT_FOUND, headers: Seq::empty(), body: "uwu 404 not foundu hiss"@ }
}

impl Response {
    /// The answer to an API request without the current session.
    pub fn forbidden() -> (response: Response)
        ensures
            response@ == forbidden(),
    {
        let response = Response {
            status: FORBIDDEN,
            headers: Vec::new(),
            body: String::from_str("{\"success\": false}"),
        };
        assert(response@.headers =~= Seq::empty());
        response
    }

    /// The answer to a request that failed inside the server.
    pub fn internal_error() -> (response: Response)
        ensures
            response@ == internal_error(),
    {
        let response = Response {
            status: INTERNAL_SERVER_ERROR,
            headers: Vec::new(),
            body: String::from_str("Internal server error"),
        };
        assert(response@.headers =~= Seq::empty());
        response
    }

    /// The answer to a failure.
    pub fn failure(e: &PanelError) -> (response: Response)
        ensures
            response@ == failure(*e),
            response@.status == status_of(*e),
    {
        match e {
            PanelError::Unauthorized => Response::forbidden(),
            _ => Response::internal_error(),
        }
    }

    /// The answer to a listing request, given the listing's JSON text.
    pub fn listing(text: String) -> (response: Response)
        ensures
            response@ == listing(text@),
    {
        let mut headers: Vec<Header> = Vec::new();
        headers.push(
            Header {
                name: String::from_str("content-type"),
                value: String::from_str("application/json"),
            },
        );
        let response = Response { status: OK, headers, body: text };
        assert(response@.headers =~= seq![("content-type"@, "application/json"@)]);
        response
    }

    /// The answer to a launch that went through.
    pub fn starting() -> (response: Response)
        ensures
            response@ == starting(),
    {
        let response = Response {
            status: OK,
            headers: Vec::new(),
            body: String::from_str("Starting game!"),
        };
        assert(response@.headers =~= Seq::empty());
        response
    }

    /// The answer to a password check.
    pub fn login(success: bool, token: &str) -> (response: Response)
        ensures
            response@ == login(success, token@),
    {
        let mut headers: Vec<Header> = Vec::new();
        headers.push(
            Header { name: String::from_str("set-cookie"), value: String::from_str(token) },
        );
        headers.push(
            Header { name: String::from_str("sam-token"), value: String::from_str(token) },
        );
        let body: String = if success {
            String::from_str("{\"success\":true}")
        } else {
            String::from_str("{\"success\":false}")
        };
        let response = Response { status: OK, headers, body };
        assert(response@.headers =~= seq![("set-cookie"@, token@), ("sam-token"@, token@)]);
        response
    }

    /// The answer to a request for an endpoint that does not exist.
    pub fn not_found() -> (response: Response)
        ensures
            response@ == not_found(),
    {
        let response = Response {
            status: NOT_FOUND,
            headers: Vec::new(),
            body: String::from_str("uwu 404 not foundu hiss"),
        };
        assert(response@.headers =~= Seq::empty());
        response
    }
}

} // verus!
