//! The cross-origin policy applied to every response.

use vstd::prelude::*;

verus! {

/// The marker under which the cross-origin policy is attached to the server.
pub struct CORS;

/// The method of a request.
#[derive(Debug, Clone, Copy, PartialEq, Eq, Structural)]
pub enum Method {
    Get,
    Put,
    Post,
    Delete,
    Options,
    Head,
    Trace,
    Connect,
    Patch,
}

/// One response header.
#[derive(Debug, Clone, Copy)]
pub struct Header {
    pub name: &'static str,
    pub value: &'static str,
}

/// What the policy changes on a response.
#[derive(Debug, Clone)]
pub struct ResponsePatch {
    /// Headers to set, in order.
    pub headers: Vec<Header>,
    /// Whether the response becomes plain text with an empty body.
    pub plain_empty_body: bool,
}

impl Header {
    pub open spec fn line(self) -> (Seq<char>, Seq<char>) {
        (self.name@, self.value@)
    }
}

impl ResponsePatch {
    /// The headers to set, as pairs of name and value.
    pub open spec fn lines(self) -> Seq<(Seq<char>, Seq<char>)> {
        Seq::new(self.headers@.len(), |i: int| self.headers@[i].line())
    }
}

impl View for ResponsePatch {
    type V = (Seq<(Seq<char>, Seq<char>)>, bool);

    /// The whole patch: the headers to set, and whether the body is
    /// replaced.
    open spec fn view(&self) -> Self::V {
        (self.lines(), self.plain_empty_body)
    }
}

impl CORS {
    /// The four headers that open a response to other origins.
    pub open spec fn allow_lines() -> Seq<(Seq<char>, Seq<char>)> {
        seq![
            ("Access-Control-Allow-Origin"@, "*"@),
            ("Access-Control-Allow-Methods"@, "POST, GET, OPTIONS"@),
            ("Access-Control-Allow-Headers"@, "Content-Type"@),
            ("Access-Control-Allow-Credentials"@, "true"@),
        ]
    }

    /// The policy: a preflight request or a JSON response gets the four
    /// headers, and a preflight request an empty plain body.
    pub open spec fn policy(method: Method, json_content: bool) -> (
        Seq<(Seq<char>, Seq<char>)>,
        bool,
    ) {
        (
            if method == Method::Options || json_content {
                CORS::allow_lines()
            } else {
                Seq::empty()
            },
            method == Method::Options,
        )
    }

    /// What to change on a response, given the request's method and whether
    /// the response carries JSON. A preflight request or a JSON response gets
    /// the four headers; a preflight request is also answered with plain text
    /// and an empty body.
    pub fn on_response(&self, method: Method, json_content: bool) -> (patch: ResponsePatch)
        ensures
            patch@ == CORS::policy(method, json_content),
    {
        let preflight = match method {
            Method::Options => true,
            _ => false,
        };
        let mut headers: Vec<Header> = Vec::new();
        if preflight || json_content {
            headers.push(Header { name: "Access-Control-Allow-Origin", value: "*" });
            headers.push(Header { name: "Access-Control-Allow-Methods", value: "POST, GET, OPTIONS" });
            headers.push(Header { name: "Access-Control-Allow-Headers", value: "Content-Type" });
            headers.push(Header { name: "Access-Control-Allow-Credentials", value: "true" });
        }
        let patch = ResponsePatch { headers, plain_empty_body: preflight };
        assert(patch.lines() =~= if method == Method::Options || json_content {
            CORS::allow_lines()
        } else {
            Seq::empty()
        });
        patch
    }
}

} // verus!
