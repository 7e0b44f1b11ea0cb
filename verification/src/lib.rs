//! Core of a minimal HTTP/1.1 server engine: request parsing, ordered
//! verb-plus-path routing with prefix stripping, buffered and streamed
//! payloads, the built-in handlers, and the response writer.
//!
//! All protocol data is modelled as byte sequences. Streams are in-memory
//! byte sources and sinks; the surrounding process adapts them to sockets
//! and files.
use vstd::prelude::*;

pub mod byteseq;
pub mod config;
pub mod fs_model;
pub mod handlers;
pub mod laws;
pub mod parser;
pub mod request;
pub mod response;
pub mod route;
pub mod server;
pub mod stream;

verus! {

/// One header line: a name/value pair. Duplicate names are permitted and
/// kept in insertion order; lookup returns the first match.
#[derive(Debug)]
pub struct HeaderField {
    pub name: Vec<u8>,
    pub value: Vec<u8>,
}

pub struct HeaderFieldView {
    pub name: Seq<u8>,
    pub value: Seq<u8>,
}

impl View for HeaderField {
    type V = HeaderFieldView;

    open spec fn view(&self) -> HeaderFieldView {
        HeaderFieldView { name: self.name@, value: self.value@ }
    }
}

impl HeaderField {
    pub fn new(name: &Vec<u8>, value: &Vec<u8>) -> (r: HeaderField)
        ensures
            r@.name == name@,
            r@.value == value@,
    {
        HeaderField { name: crate::byteseq::clone_bytes(name), value: crate::byteseq::clone_bytes(value) }
    }
}

/// The verbs the engine distinguishes. `Any` is a wildcard that is only
/// meaningful on a route definition, never on a parsed request.
#[derive(Clone, Copy, PartialEq, Eq, Structural, Debug)]
pub enum HttpVerb {
    Unknown,
    Any,
    Get,
    Post,
}

/// The closed set of status codes the engine emits; each maps to a fixed
/// numeric code and reason phrase in the status line.
#[derive(Clone, Copy, PartialEq, Eq, Structural, Debug)]
pub enum StatusCode {
    HttpOk,
    Created,
    NotFound,
    Forbidden,
    InternalServerError,
}

/// Connection-fatal failures: the three distinct parse failures, a missing
/// required request header during dispatch, and a body stream that ends
/// before the declared length was copied.
#[derive(Clone, Copy, PartialEq, Eq, Structural, Debug)]
pub enum HttpErrorKind {
    InvalidRequestLine,
    InvalidHeader,
    UnexpectedEof,
    MissingHeader,
}

#[derive(Clone, Copy, PartialEq, Eq, Structural, Debug)]
pub struct HttpError {
    pub kind: HttpErrorKind,
}

impl HttpError {
    /// A fixed description of the failure, for operator logs.
    pub fn message(&self) -> (r: &'static str)
    {
        match self.kind {
            HttpErrorKind::InvalidRequestLine => "Invalid message line. Expecting GET /path HTTP/1.1",
            HttpErrorKind::InvalidHeader => "Invalid header",
            HttpErrorKind::UnexpectedEof => "Invalid query. Unexpected EOF",
            HttpErrorKind::MissingHeader => "Expected User-Agent header, but not found",
        }
    }
}

/// Builds the error arm for a failing operation.
pub fn build_error<T>(kind: HttpErrorKind) -> (r: Result<T, HttpError>)
    ensures
        r == Result::<T, HttpError>::Err(HttpError { kind }),
{
    Err(HttpError { kind })
}

/// The body of a request or response: either a finite sequence of
/// in-memory byte blocks, or a byte-stream source to be drained lazily,
/// exactly once.
pub enum Payload {
    Simple(Vec<Vec<u8>>),
    ReadStream(crate::stream::ByteStream),
}

pub enum PayloadView {
    Simple(Seq<Seq<u8>>),
    Stream(Seq<u8>),
}

impl View for Payload {
    type V = PayloadView;

    open spec fn view(&self) -> PayloadView {
        match self {
            Payload::Simple(blocks) => PayloadView::Simple(blocks.deep_view()),
            Payload::ReadStream(s) => PayloadView::Stream(s@),
        }
    }
}

/// The concatenation of a sequence of byte blocks.
pub open spec fn blocks_bytes(blocks: Seq<Seq<u8>>) -> Seq<u8>
    decreases blocks.len(),
{
    if blocks.len() == 0 {
        Seq::empty()
    } else {
        blocks_bytes(blocks.drop_last()) + blocks.last()
    }
}

/// The full body a payload stands for, blocks concatenated or the stream's
/// unread bytes.
pub open spec fn payload_bytes(p: PayloadView) -> Seq<u8> {
    match p {
        PayloadView::Simple(blocks) => blocks_bytes(blocks),
        PayloadView::Stream(s) => s,
    }
}

} // verus!
