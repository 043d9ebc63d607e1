//! Wire schema of the effect protocol: requests flowing from the guest to
//! the host and the tagged responses flowing back, with a mathematical model
//! of each value so that contracts can speak of them.
use vstd::prelude::*;

verus! {

/// HTTP method of an outbound request.
#[derive(Clone, Copy, Debug, PartialEq, Eq, Structural)]
pub enum Method {
    Get,
    Post,
    Delete,
}

/// HTTP version reported for a response.
#[derive(Clone, Copy, Debug, PartialEq, Eq, Structural)]
pub enum Version {
    HttpZeroNine,
    HttpOneZero,
    HttpOneOne,
    HttpTwoZero,
    HttpThreeZero,
}

/// Classification of a transport-level HTTP failure.
#[derive(Clone, Copy, Debug, PartialEq, Eq, Structural)]
pub enum ErrorKind {
    Builder,
    Request,
    Redirect,
    Status(u16),
    Body,
    Decode,
    Upgrade,
}

/// A point in wall-clock time, as seconds and nanoseconds since the Unix epoch.
#[derive(Clone, Copy, Debug, PartialEq, Eq, Structural)]
pub struct WallTime {
    pub tv_sec: u64,
    pub tv_nsec: u32,
}

/// One header line.
#[derive(Debug)]
pub struct Header {
    pub key: String,
    pub value: String,
}

/// An outbound request issued by the guest.
#[derive(Debug)]
pub struct Request {
    pub method: Method,
    pub path: String,
    pub body: Option<Vec<u8>>,
    pub headers: Vec<Header>,
}

/// A completed HTTP exchange, as recorded by the host.
#[derive(Debug)]
pub struct Response {
    pub status: u16,
    pub http_version: Version,
    pub headers: Vec<Header>,
    pub content_length: Option<u64>,
    pub url: String,
    pub body: Vec<u8>,
}

/// A transport-level HTTP failure, as recorded by the host.
#[derive(Debug)]
pub struct Error {
    pub url: Option<String>,
    pub kind: Option<ErrorKind>,
}

/// A scalar value; in a request only its variant matters. A 32-bit float
/// travels as its IEEE-754 bit pattern.
#[derive(Debug)]
pub enum Scalar {
    BoolType(bool),
    I32Type(u32),
    F32Type(u32),
    StringType(String),
}

/// A diagnostic message with its severity.
#[derive(Debug)]
pub enum Level {
    Trace(String),
    Debug(String),
    Info(String),
    Warn(String),
    Error(String),
}

/// Payload of a host response.
#[derive(Debug)]
pub enum Content {
    HttpResponse(Result<Response, Error>),
    Value(Scalar),
    Time(WallTime),
    Unit,
}

/// A host response with its correlation id.
#[derive(Debug)]
pub struct HostToGuest {
    pub id: String,
    pub content: Content,
}

/// A guest request.
#[derive(Debug)]
pub enum GuestToHost {
    Input,
    Random(Scalar),
    Log(Level),
    HttpRequest(Request),
    Time,
}

/// The error a workflow returns: the correlation id of the effect whose
/// response the guest deemed failed, if any, and a description.
#[derive(Debug)]
pub struct WorkflowError {
    pub id: Option<String>,
    pub error: String,
}

impl WorkflowError {
    /// A workflow error with the given id and description.
    pub fn new(id: Option<String>, error: String) -> (r: WorkflowError)
        ensures
            r.id == id,
            r.error == error,
    {
        WorkflowError { id, error }
    }
}

/// Model of a response: every field as a mathematical value.
pub struct ResponseModel {
    pub status: u16,
    pub http_version: Version,
    pub headers: Seq<(Seq<char>, Seq<char>)>,
    pub content_length: Option<u64>,
    pub url: Seq<char>,
    pub body: Seq<u8>,
}

/// Model of a transport failure.
pub struct ErrorModel {
    pub url: Option<Seq<char>>,
    pub kind: Option<ErrorKind>,
}

/// Model of a scalar.
pub enum ScalarModel {
    Bool(bool),
    I32(u32),
    F32(u32),
    Str(Seq<char>),
}

/// Model of a response payload.
pub enum ContentModel {
    HttpResponse(Result<ResponseModel, ErrorModel>),
    Value(ScalarModel),
    Time(WallTime),
    Unit,
}

/// Model of a host response.
pub struct MessageModel {
    pub id: Seq<char>,
    pub content: ContentModel,
}

pub open spec fn headers_model(hs: Seq<Header>) -> Seq<(Seq<char>, Seq<char>)> {
    hs.map_values(|h: Header| (h.key@, h.value@))
}

impl View for Response {
    type V = ResponseModel;

    open spec fn view(&self) -> ResponseModel {
        ResponseModel {
            status: self.status,
            http_version: self.http_version,
            headers: headers_model(self.headers@),
            content_length: self.content_length,
            url: self.url@,
            body: self.body@,
        }
    }
}

impl View for Error {
    type V = ErrorModel;

    open spec fn view(&self) -> ErrorModel {
        ErrorModel {
            url: match self.url {
                Some(u) => Some(u@),
                None => None,
            },
            kind: self.kind,
        }
    }
}

impl View for Scalar {
    type V = ScalarModel;

    open spec fn view(&self) -> ScalarModel {
        match self {
            Scalar::BoolType(b) => ScalarModel::Bool(*b),
            Scalar::I32Type(v) => ScalarModel::I32(*v),
            Scalar::F32Type(v) => ScalarModel::F32(*v),
            Scalar::StringType(s) => ScalarModel::Str(s@),
        }
    }
}

impl View for Content {
    type V = ContentModel;

    open spec fn view(&self) -> ContentModel {
        match self {
            Content::HttpResponse(Ok(r)) => ContentModel::HttpResponse(Ok(r@)),
            Content::HttpResponse(Err(e)) => ContentModel::HttpResponse(Err(e@)),
            Content::Value(s) => ContentModel::Value(s@),
            Content::Time(t) => ContentModel::Time(*t),
            Content::Unit => ContentModel::Unit,
        }
    }
}

impl View for HostToGuest {
    type V = MessageModel;

    open spec fn view(&self) -> MessageModel {
        MessageModel { id: self.id@, content: self.content@ }
    }
}

/// Copies a byte buffer.
pub fn copy_bytes(b: &Vec<u8>) -> (r: Vec<u8>)
    ensures
        r@ == b@,
{
    let mut r: Vec<u8> = Vec::with_capacity(b.len());
    let mut i: usize = 0;
    while i < b.len()
        invariant
            i <= b.len(),
            r@ == b@.subrange(0, i as int),
        decreases b.len() - i,
    {
        r.push(b[i]);
        i += 1;
    }
    proof {
        assert(b@.subrange(0, b@.len() as int) =~= b@);
    }
    r
}

/// Copies a list of headers.
pub fn copy_headers(hs: &Vec<Header>) -> (r: Vec<Header>)
    ensures
        headers_model(r@) == headers_model(hs@),
{
    let mut r: Vec<Header> = Vec::with_capacity(hs.len());
    let mut i: usize = 0;
    while i < hs.len()
        invariant
            i <= hs.len(),
            headers_model(r@) =~= headers_model(hs@.subrange(0, i as int)),
        decreases hs.len() - i,
    {
        let h = Header { key: hs[i].key.clone(), value: hs[i].value.clone() };
        let ghost before = r@;
        r.push(h);
        proof {
            assert(hs@.subrange(0, i + 1) =~= hs@.subrange(0, i as int).push(hs@[i as int]));
            assert(r@ == before.push(h));
            assert(headers_model(r@) =~= headers_model(before).push((h.key@, h.value@)));
            assert(headers_model(hs@.subrange(0, i + 1)) =~= headers_model(
                hs@.subrange(0, i as int),
            ).push((hs@[i as int].key@, hs@[i as int].value@)));
        }
        i += 1;
    }
    proof {
        assert(hs@.subrange(0, hs@.len() as int) =~= hs@);
    }
    r
}

impl Response {
    /// A copy with the same model.
    pub fn copy(&self) -> (r: Response)
        ensures
            r@ == self@,
    {
        Response {
            status: self.status,
            http_version: self.http_version,
            headers: copy_headers(&self.headers),
            content_length: self.content_length,
            url: self.url.clone(),
            body: copy_bytes(&self.body),
        }
    }
}

impl Error {
    /// A copy with the same model.
    pub fn copy(&self) -> (r: Error)
        ensures
            r@ == self@,
    {
        let url = match &self.url {
            Some(u) => Some(u.clone()),
            None => None,
        };
        Error { url, kind: self.kind }
    }
}

impl Scalar {
    /// A copy with the same model.
    pub fn copy(&self) -> (r: Scalar)
        ensures
            r@ == self@,
    {
        match self {
            Scalar::BoolType(b) => Scalar::BoolType(*b),
            Scalar::I32Type(v) => Scalar::I32Type(*v),
            Scalar::F32Type(v) => Scalar::F32Type(*v),
            Scalar::StringType(s) => Scalar::StringType(s.clone()),
        }
    }
}

impl Content {
    /// A copy with the same model.
    pub fn copy(&self) -> (r: Content)
        ensures
            r@ == self@,
    {
        match self {
            Content::HttpResponse(Ok(resp)) => Content::HttpResponse(Ok(resp.copy())),
            Content::HttpResponse(Err(e)) => Content::HttpResponse(Err(e.copy())),
            Content::Value(s) => Content::Value(s.copy()),
            Content::Time(t) => Content::Time(*t),
            Content::Unit => Content::Unit,
        }
    }
}

impl HostToGuest {
    /// A copy with the same model: what a replay hands back.
    pub fn copy(&self) -> (r: HostToGuest)
        ensures
            r@ == self@,
    {
        HostToGuest { id: self.id.clone(), content: self.content.copy() }
    }
}

} // verus!
