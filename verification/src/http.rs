//! Requests to the task service and its answers, as plain values. The caller
//! performs them; the library only decides what is sent and what an answer
//! means.

use crate::text::optional_text;
use vstd::prelude::*;

verus! {

/// The two methods that the client uses.
#[derive(Clone, Copy, Debug, PartialEq, Eq, Structural)]
pub enum Method {
    Get,
    Post,
}

/// What a [`Request`] holds, as mathematical values.
pub struct RequestView {
    pub method: Method,
    pub url: Seq<char>,
    pub body: Option<Seq<char>>,
}

/// A request to the task service, without its authorization.
#[derive(Debug)]
pub struct Request {
    pub method: Method,
    pub url: String,
    /// The JSON body of a `Post`.
    pub body: Option<String>,
}

/// What a [`Response`] holds, as mathematical values.
pub struct ResponseView {
    pub status: u16,
    pub body: Seq<char>,
}

/// An answer of the task service.
#[derive(Debug)]
pub struct Response {
    pub status: u16,
    pub body: String,
}

/// The status with which the task service refuses a token.
pub const UNAUTHORIZED: u16 = 401;

impl View for Request {
    type V = RequestView;

    open spec fn view(&self) -> RequestView {
        RequestView {
            method: self.method,
            url: self.url@,
            body: optional_text(self.body),
        }
    }
}

impl View for Response {
    type V = ResponseView;

    open spec fn view(&self) -> ResponseView {
        ResponseView { status: self.status, body: self.body@ }
    }
}

impl Clone for Request {
    fn clone(&self) -> (copy: Request)
        ensures
            copy@ == self@,
    {
        Request {
            method: self.method,
            url: self.url.clone(),
            body: match &self.body {
                Some(text) => Some(text.clone()),
                None => None,
            },
        }
    }
}

impl ResponseView {
    /// Whether the status is one of success, 200 to 299.
    pub open spec fn succeeded(self) -> bool {
        200 <= self.status < 300
    }

    /// Whether the service refused the token.
    pub open spec fn unauthorized(self) -> bool {
        self.status == UNAUTHORIZED
    }
}

impl Response {
    /// Whether the status is one of success, 200 to 299.
    pub fn succeeded(&self) -> (yes: bool)
        ensures
            yes == self@.succeeded(),
    {
        200 <= self.status && self.status < 300
    }

    /// Whether the service refused the token.
    pub fn unauthorized(&self) -> (yes: bool)
        ensures
            yes == self@.unauthorized(),
    {
        self.status == UNAUTHORIZED
    }
}

} // verus!
