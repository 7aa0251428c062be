//! Wire-format types for HTTP/1.x messages: lexical primitives, the header
//! collection, and the request/response pipelines.

pub mod headers;
pub mod lexical;
pub mod request;
pub mod response;
pub mod status;
pub mod text;

pub use headers::Header;
pub use headers::Headers;
pub use lexical::HttpVersion;
pub use lexical::Method;
pub use request::RawRequest;
pub use request::RequestLine;
pub use request::read_http_request;
pub use response::RawResponse;
pub use response::StatusLine;
pub use status::StatusCode;

use vstd::prelude::*;
use vstd::string::StringExecFns;

verus! {

/// The line terminator of the wire format: carriage return followed by line feed.
pub const CRLF: &'static str = "\r\n";

/// The kind of transport failure observed while reading or writing bytes,
/// kept abstract of any particular transport.
#[derive(Clone, Copy, Debug, Eq, Hash, Ord, PartialEq, PartialOrd, Structural)]
pub enum IoErrorKind {
    /// The source ended before a full message element was available.
    UnexpectedEof,
    /// The peer reset the connection.
    ConnectionReset,
    /// The connection was aborted locally.
    ConnectionAborted,
    /// The sink rejected further bytes.
    BrokenPipe,
    /// A read or write deadline elapsed.
    TimedOut,
    /// The operation would have to block to proceed.
    WouldBlock,
    /// Any other transport failure.
    Other,
}

/// Why a decode attempt failed. Every variant carries the offending raw
/// input so a caller can log or classify the failure precisely.
#[derive(Clone, Debug, Eq, Ord, PartialEq, PartialOrd)]
pub enum ParseRequestError {
    /// Reading from the byte source failed.
    Io(IoErrorKind),
    /// A method token matched no known method.
    UnknownMethod(String),
    /// A version token matched no known protocol version.
    UnknownHttpVersion(String),
    /// The first line did not have the shape `METHOD SP URI SP VERSION`.
    RequestLine(String),
    /// A header line had no `": "` separator.
    InvalidHeader(String),
}

/// The mathematical value of a [`ParseRequestError`]: the same variants over
/// character sequences.
pub enum ParseErrorView {
    Io(IoErrorKind),
    UnknownMethod(Seq<char>),
    UnknownHttpVersion(Seq<char>),
    RequestLine(Seq<char>),
    InvalidHeader(Seq<char>),
}

impl View for ParseRequestError {
    type V = ParseErrorView;

    open spec fn view(&self) -> ParseErrorView {
        match self {
            ParseRequestError::Io(k) => ParseErrorView::Io(*k),
            ParseRequestError::UnknownMethod(t) => ParseErrorView::UnknownMethod(t@),
            ParseRequestError::UnknownHttpVersion(t) => ParseErrorView::UnknownHttpVersion(t@),
            ParseRequestError::RequestLine(l) => ParseErrorView::RequestLine(l@),
            ParseRequestError::InvalidHeader(l) => ParseErrorView::InvalidHeader(l@),
        }
    }
}

/// The short description of a transport failure kind.
pub open spec fn io_kind_chars(k: IoErrorKind) -> Seq<char> {
    match k {
        IoErrorKind::UnexpectedEof => "unexpected end of file"@,
        IoErrorKind::ConnectionReset => "connection reset"@,
        IoErrorKind::ConnectionAborted => "connection aborted"@,
        IoErrorKind::BrokenPipe => "broken pipe"@,
        IoErrorKind::TimedOut => "timed out"@,
        IoErrorKind::WouldBlock => "operation would block"@,
        IoErrorKind::Other => "other error"@,
    }
}

impl IoErrorKind {
    /// The short description of this failure kind.
    pub fn as_str(&self) -> (r: &'static str)
        ensures
            r@ == io_kind_chars(*self),
    {
        match self {
            IoErrorKind::UnexpectedEof => "unexpected end of file",
            IoErrorKind::ConnectionReset => "connection reset",
            IoErrorKind::ConnectionAborted => "connection aborted",
            IoErrorKind::BrokenPipe => "broken pipe",
            IoErrorKind::TimedOut => "timed out",
            IoErrorKind::WouldBlock => "operation would block",
            IoErrorKind::Other => "other error",
        }
    }
}

/// The diagnostic line of an error: what failed, with the offending raw
/// input echoed verbatim.
pub open spec fn message_chars(e: ParseErrorView) -> Seq<char> {
    match e {
        ParseErrorView::Io(k) => "read failure: "@ + io_kind_chars(k),
        ParseErrorView::UnknownMethod(t) => "unknown http method: "@ + t,
        ParseErrorView::UnknownHttpVersion(t) => "unknown http version: "@ + t,
        ParseErrorView::RequestLine(l) => "invalid request line: "@ + l,
        ParseErrorView::InvalidHeader(l) => "invalid characters in header content: "@ + l,
    }
}

impl ParseRequestError {
    /// Writes the diagnostic line for this error.
    pub fn to_message(&self) -> (r: String)
        ensures
            r@ == message_chars(self@),
    {
        match self {
            ParseRequestError::Io(k) => {
                let mut s = "read failure: ".to_owned();
                s.append(k.as_str());
                s
            },
            ParseRequestError::UnknownMethod(t) => {
                let mut s = "unknown http method: ".to_owned();
                s.append(t.as_str());
                s
            },
            ParseRequestError::UnknownHttpVersion(t) => {
                let mut s = "unknown http version: ".to_owned();
                s.append(t.as_str());
                s
            },
            ParseRequestError::RequestLine(l) => {
                let mut s = "invalid request line: ".to_owned();
                s.append(l.as_str());
                s
            },
            ParseRequestError::InvalidHeader(l) => {
                let mut s = "invalid characters in header content: ".to_owned();
                s.append(l.as_str());
                s
            },
        }
    }
}

} // verus!
