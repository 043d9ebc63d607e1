//! Guest-side helpers: they build the requests a workflow sends to the host
//! and decode the host's responses into values the workflow works with.
use crate::abi::{
    ContentModel, MessageModel, ErrorKind, GuestToHost, Header, HostToGuest, Level, Method, Request,
    ResponseModel, ScalarModel, Scalar, Version, WallTime, WorkflowError, Content,
};
use crate::effects::{severity_of, text_of, Severity};
use crate::outside::{
    canonical_reason, lossy_text, lossy_text_of, reason_phrase_of, status_display,
    status_display_of,
};
use vstd::prelude::*;

verus! {

/// The codes that `http::StatusCode` accepts.
pub open spec fn valid_status(code: u16) -> bool {
    100 <= code <= 999
}

/// A status in the client-error (400 to 499) or server-error (500 to 599) range.
pub open spec fn is_error_status(code: u16) -> bool {
    400 <= code <= 599
}

/// Model of a guest-side response: the correlation id of the effect that
/// produced it and the recorded exchange.
pub struct ReceivedModel {
    pub id: Seq<char>,
    pub response: ResponseModel,
}

/// An HTTP response as a workflow sees it.
#[derive(Debug)]
pub struct Response {
    id: String,
    url: String,
    version: Version,
    status: u16,
    headers: Vec<Header>,
    content_length: Option<u64>,
    body: Vec<u8>,
}

impl View for Response {
    type V = ReceivedModel;

    closed spec fn view(&self) -> ReceivedModel {
        ReceivedModel {
            id: self.id@,
            response: ResponseModel {
                status: self.status,
                http_version: self.version,
                headers: crate::abi::headers_model(self.headers@),
                content_length: self.content_length,
                url: self.url@,
                body: self.body@,
            },
        }
    }
}

/// The description that `error_for_status` gives for an error status: the
/// standard reason phrase, else the code's display text.
pub open spec fn status_error_text(code: u16) -> Seq<char> {
    match reason_phrase_of(code) {
        Some(p) => p,
        None => status_display_of(code),
    }
}

impl Response {
    /// The guest's view of a recorded exchange with correlation id `id`.
    pub fn from_response(id: String, response: crate::abi::Response) -> (r: Response)
        requires
            valid_status(response.status),
        ensures
            r@ == (ReceivedModel { id: id@, response: response@ }),
            valid_status(r@.response.status),
    {
        Response {
            id,
            url: response.url,
            version: response.http_version,
            status: response.status,
            headers: response.headers,
            content_length: response.content_length,
            body: response.body,
        }
    }

    /// The correlation id of the effect that produced this response.
    pub fn id(&self) -> (r: String)
        ensures
            r@ == self@.id,
    {
        self.id.clone()
    }

    /// The status code.
    pub fn status(&self) -> (r: u16)
        ensures
            r == self@.response.status,
    {
        self.status
    }

    /// The HTTP version.
    pub fn version(&self) -> (r: Version)
        ensures
            r == self@.response.http_version,
    {
        self.version
    }

    /// The headers, in the order received.
    pub fn headers(&self) -> (r: &Vec<Header>)
        ensures
            crate::abi::headers_model(r@) == self@.response.headers,
    {
        &self.headers
    }

    /// The headers, to be changed in place.
    pub fn headers_mut(&mut self) -> (r: &mut Vec<Header>)
        ensures
            crate::abi::headers_model(r@) == old(self)@.response.headers,
            final(self)@ == (ReceivedModel {
                response: ResponseModel {
                    headers: crate::abi::headers_model(final(r)@),
                    ..old(self)@.response
                },
                ..old(self)@
            }),
    {
        &mut self.headers
    }

    /// The content length, where the server gave one.
    pub fn content_length(&self) -> (r: Option<u64>)
        ensures
            r == self@.response.content_length,
    {
        self.content_length
    }

    /// The final URL.
    pub fn url(&self) -> (r: &str)
        ensures
            r@ == self@.response.url,
    {
        self.url.as_str()
    }

    /// Turns a client- or server-error response into a workflow error that
    /// carries this response's correlation id; any other response is
    /// returned unchanged.
    pub fn error_for_status(self) -> (r: Result<Response, WorkflowError>)
        requires
            valid_status(self@.response.status),
        ensures
            is_error_status(self@.response.status) <==> r is Err,
            match r {
                Ok(same) => same@ == self@,
                Err(e) => e.id matches Some(i) && i@ == self@.id && e.error@ == status_error_text(
                    self@.response.status,
                ),
            },
    {
        if 400 <= self.status && self.status <= 599 {
            let error = match canonical_reason(self.status) {
                Some(reason) => reason,
                None => status_display(self.status),
            };
            Err(WorkflowError::new(Some(self.id), error))
        } else {
            Ok(self)
        }
    }

    /// The body as text, invalid UTF-8 replaced.
    pub fn text(self) -> (r: Result<String, WorkflowError>)
        ensures
            r matches Ok(t) && t@ == lossy_text_of(self@.response.body),
    {
        Ok(lossy_text(&self.body))
    }

    /// The body as bytes.
    pub fn bytes(self) -> (r: Result<Vec<u8>, WorkflowError>)
        ensures
            r matches Ok(b) && b@ == self@.response.body,
    {
        Ok(self.body)
    }
}

/// Classification of a transport failure as a workflow sees it.
#[derive(Clone, Copy, Debug, PartialEq, Eq, Structural)]
pub enum Kind {
    Builder,
    Request,
    Redirect,
    Status(u16),
    Body,
    Decode,
    Upgrade,
}

/// The guest's classification of a recorded failure kind.
pub open spec fn kind_of(k: ErrorKind) -> Kind {
    match k {
        ErrorKind::Builder => Kind::Builder,
        ErrorKind::Request => Kind::Request,
        ErrorKind::Redirect => Kind::Redirect,
        ErrorKind::Status(c) => Kind::Status(c),
        ErrorKind::Body => Kind::Body,
        ErrorKind::Decode => Kind::Decode,
        ErrorKind::Upgrade => Kind::Upgrade,
    }
}

/// A transport failure as a workflow sees it, with its correlation id.
#[derive(Debug)]
pub struct Error {
    pub id: String,
    pub url: Option<String>,
    pub kind: Option<Kind>,
}

impl Error {
    /// The guest's view of a recorded failure with correlation id `id`.
    pub fn from_error(id: String, error: crate::abi::Error) -> (r: Error)
        ensures
            r.id == id,
            r.url == error.url,
            match error.kind {
                Some(k) => r.kind == Some(kind_of(k)),
                None => r.kind is None,
            },
    {
        let kind = match error.kind {
            Some(k) => Some(
                match k {
                    ErrorKind::Builder => Kind::Builder,
                    ErrorKind::Request => Kind::Request,
                    ErrorKind::Redirect => Kind::Redirect,
                    ErrorKind::Status(c) => Kind::Status(c),
                    ErrorKind::Body => Kind::Body,
                    ErrorKind::Decode => Kind::Decode,
                    ErrorKind::Upgrade => Kind::Upgrade,
                },
            ),
            None => None,
        };
        Error { id, url: error.url, kind }
    }
}

/// The request that an HTTP helper sends.
pub fn request(method: Method, path: String, headers: Vec<Header>, body: Option<Vec<u8>>) -> (r:
    GuestToHost)
    ensures
        r == GuestToHost::HttpRequest(Request { method, path, body, headers }),
{
    GuestToHost::HttpRequest(Request { method, path, body, headers })
}

/// A GET request for `path`.
pub fn get(path: String, headers: Vec<Header>) -> (r: GuestToHost)
    ensures
        r == GuestToHost::HttpRequest(Request { method: Method::Get, path, body: None, headers }),
{
    request(Method::Get, path, headers, None)
}

/// A POST request for `path`.
pub fn post(path: String, headers: Vec<Header>, body: Option<Vec<u8>>) -> (r: GuestToHost)
    ensures
        r == GuestToHost::HttpRequest(Request { method: Method::Post, path, body, headers }),
{
    request(Method::Post, path, headers, body)
}

/// A DELETE request for `path`.
pub fn delete(path: String, headers: Vec<Header>, body: Option<Vec<u8>>) -> (r: GuestToHost)
    ensures
        r == GuestToHost::HttpRequest(Request { method: Method::Delete, path, body, headers }),
{
    request(Method::Delete, path, headers, body)
}

/// The response that a host answer decodes to on the guest side, where it
/// carries a completed exchange with a valid status.
pub open spec fn decoded_response(m: MessageModel) -> Option<ReceivedModel> {
    match m.content {
        ContentModel::HttpResponse(Ok(resp)) => if valid_status(resp.status) {
            Some(ReceivedModel { id: m.id, response: resp })
        } else {
            None
        },
        _ => None,
    }
}

/// Decodes the host's answer to an HTTP request: the response or the
/// transport failure, tagged with the answer's correlation id. `None` where
/// the answer is not an HTTP outcome or its status is not a valid code.
pub fn http_reply(reply: HostToGuest) -> (r: Option<Result<Response, Error>>)
    ensures
        match reply@.content {
            ContentModel::HttpResponse(Ok(_)) => match decoded_response(reply@) {
                Some(d) => r matches Some(Ok(x)) && x@ == d,
                None => r is None,
            },
            ContentModel::HttpResponse(Err(e)) => r matches Some(Err(x)) && x.id@ == reply@.id
                && x.kind == match e.kind {
                Some(k) => Some(kind_of(k)),
                None => None,
            },
            _ => r is None,
        },
{
    match reply.content {
        Content::HttpResponse(Ok(resp)) => {
            if 100 <= resp.status && resp.status <= 999 {
                Some(Ok(Response::from_response(reply.id, resp)))
            } else {
                None
            }
        },
        Content::HttpResponse(Err(e)) => Some(Err(Error::from_error(reply.id, e))),
        _ => None,
    }
}

/// A value that a workflow can ask the host to draw at random.
pub trait Rand: Sized {
    /// The value that a response payload carries for this type, if any.
    spec fn from_content(c: ContentModel) -> Option<Self>;

    /// Whether `r` is the request for a value of this type.
    spec fn is_request(r: GuestToHost) -> bool;

    /// The request for a value of this type.
    fn request() -> (r: GuestToHost)
        ensures
            Self::is_request(r),
    ;

    /// The value in the host's response, if it carries one of this type.
    fn from_reply(reply: &HostToGuest) -> (r: Option<Self>)
        ensures
            r == Self::from_content(reply@.content),
    ;
}

impl Rand for bool {
    open spec fn from_content(c: ContentModel) -> Option<bool> {
        match c {
            ContentModel::Value(ScalarModel::Bool(b)) => Some(b),
            _ => None,
        }
    }

    open spec fn is_request(r: GuestToHost) -> bool {
        r matches GuestToHost::Random(Scalar::BoolType(_))
    }

    fn request() -> (r: GuestToHost) {
        GuestToHost::Random(Scalar::BoolType(false))
    }

    fn from_reply(reply: &HostToGuest) -> (r: Option<bool>) {
        match &reply.content {
            Content::Value(Scalar::BoolType(b)) => Some(*b),
            _ => None,
        }
    }
}

impl Rand for i32 {
    open spec fn from_content(c: ContentModel) -> Option<i32> {
        match c {
            ContentModel::Value(ScalarModel::I32(v)) => Some(v as i32),
            _ => None,
        }
    }

    open spec fn is_request(r: GuestToHost) -> bool {
        r matches GuestToHost::Random(Scalar::I32Type(_))
    }

    fn request() -> (r: GuestToHost) {
        GuestToHost::Random(Scalar::I32Type(0))
    }

    fn from_reply(reply: &HostToGuest) -> (r: Option<i32>) {
        match &reply.content {
            Content::Value(Scalar::I32Type(v)) => Some(*v as i32),
            _ => None,
        }
    }
}

/// The random value of type `A` in the host's response to `A::request()`.
pub fn rand<A: Rand>(reply: &HostToGuest) -> (r: Option<A>)
    ensures
        r == A::from_content(reply@.content),
{
    A::from_reply(reply)
}

/// The request for the current time.
pub fn time_request() -> (r: GuestToHost)
    ensures
        r matches GuestToHost::Time,
{
    GuestToHost::Time
}

/// The time in the host's response to a time request, if it carries one.
pub fn now(reply: &HostToGuest) -> (r: Option<WallTime>)
    ensures
        r == match reply@.content {
            ContentModel::Time(t) => Some(t),
            _ => None::<WallTime>,
        },
{
    match &reply.content {
        Content::Time(t) => Some(*t),
        _ => None,
    }
}

/// The request that forwards a diagnostic message to the host.
pub fn log_request(severity: Severity, text: String) -> (r: GuestToHost)
    ensures
        r matches GuestToHost::Log(level) && severity_of(level) == severity && text_of(level)
            == text@,
{
    let level = match severity {
        Severity::Trace => Level::Trace(text),
        Severity::Debug => Level::Debug(text),
        Severity::Info => Level::Info(text),
        Severity::Warn => Level::Warn(text),
        Severity::Error => Level::Error(text),
    };
    GuestToHost::Log(level)
}

} // verus!
