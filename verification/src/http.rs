//! HTTP exchanges as plain values: the request to send, and what came back.
//!
//! The crate never sends anything itself. A flow hands out an
//! [`HttpRequest`]; whoever owns the transport performs it and hands back an
//! [`HttpReply`].

use vstd::prelude::*;

verus! {

/// The status of a successful exchange.
pub const STATUS_OK: u16 = 200;

/// The status of an exchange that the server refused for want of valid
/// credentials.
pub const STATUS_UNAUTHORIZED: u16 = 401;

/// The request methods that the flows of this crate use.
#[derive(Clone, Copy, Debug, PartialEq, Eq, Structural)]
pub enum Method {
    Get,
    Post,
    Put,
}

/// A request to send: the method, the URL, the headers in order, and the body
/// where there is one.
#[derive(Clone, Debug, PartialEq, Eq)]
pub struct HttpRequest {
    pub method: Method,
    pub url: String,
    pub headers: Vec<(String, String)>,
    pub body: Option<String>,
}

/// The mathematical model of an [`HttpRequest`].
pub struct HttpRequestView {
    pub method: Method,
    pub url: Seq<char>,
    pub headers: Seq<(Seq<char>, Seq<char>)>,
    pub body: Option<Seq<char>>,
}

impl View for HttpRequest {
    type V = HttpRequestView;

    open spec fn view(&self) -> HttpRequestView {
        HttpRequestView {
            method: self.method,
            url: self.url@,
            headers: self.headers.deep_view(),
            body: self.body.deep_view(),
        }
    }
}

impl DeepView for HttpRequest {
    type V = HttpRequestView;

    open spec fn deep_view(&self) -> HttpRequestView {
        self@
    }
}

/// What came back for a request: a response with its status and body, or the
/// reason why the transport produced none (connection refused, timeout, TLS).
#[derive(Clone, Debug, PartialEq, Eq)]
pub enum HttpReply {
    Response { status: u16, body: String },
    Failed { reason: String },
}

/// The mathematical model of an [`HttpReply`].
pub enum HttpReplyView {
    Response { status: u16, body: Seq<char> },
    Failed { reason: Seq<char> },
}

impl View for HttpReply {
    type V = HttpReplyView;

    open spec fn view(&self) -> HttpReplyView {
        match self {
            HttpReply::Response { status, body } => HttpReplyView::Response {
                status: *status,
                body: body@,
            },
            HttpReply::Failed { reason } => HttpReplyView::Failed { reason: reason@ },
        }
    }
}

impl DeepView for HttpReply {
    type V = HttpReplyView;

    open spec fn deep_view(&self) -> HttpReplyView {
        self@
    }
}

/// Why a request produced no usable answer: the transport failed, or the body
/// of the answer was not the JSON that was expected.
#[derive(Clone, Debug, PartialEq, Eq)]
pub enum RequestError {
    Transport { reason: String },
    Decode,
}

/// The mathematical model of a [`RequestError`].
pub enum RequestErrorView {
    Transport { reason: Seq<char> },
    Decode,
}

impl View for RequestError {
    type V = RequestErrorView;

    open spec fn view(&self) -> RequestErrorView {
        match self {
            RequestError::Transport { reason } => RequestErrorView::Transport { reason: reason@ },
            RequestError::Decode => RequestErrorView::Decode,
        }
    }
}

impl DeepView for RequestError {
    type V = RequestErrorView;

    open spec fn deep_view(&self) -> RequestErrorView {
        self@
    }
}

/// The model of a result: the model of its value, or of its error.
pub open spec fn result_view<T: DeepView, E: DeepView>(r: Result<T, E>) -> Result<T::V, E::V> {
    match r {
        Ok(value) => Ok(value.deep_view()),
        Err(error) => Err(error.deep_view()),
    }
}

/// The name of the header that announces the type of a body.
pub open spec fn content_type_name() -> Seq<char> {
    "Content-Type"@
}

/// The content type of a JSON body.
pub open spec fn content_type_json() -> Seq<char> {
    "application/json"@
}

/// The header that announces a JSON body.
pub fn json_content_type() -> (header: (String, String))
    ensures
        header.deep_view() == (content_type_name(), content_type_json()),
{
    ("Content-Type".to_owned(), "application/json".to_owned())
}

/// What a [`RequestError`] says of itself: the transport's reason, or that
/// the body was not what was expected.
pub open spec fn request_error_message(error: RequestErrorView) -> Seq<char> {
    match error {
        RequestErrorView::Transport { reason } => reason,
        RequestErrorView::Decode => "unexpected response body"@,
    }
}

impl RequestError {
    /// The error in words.
    pub fn to_string(&self) -> (message: String)
        ensures
            message@ == request_error_message(self@),
    {
        match self {
            RequestError::Transport { reason } => reason.clone(),
            RequestError::Decode => "unexpected response body".to_owned(),
        }
    }
}

} // verus!
