//! The response encoder: a structured response is serialized into one
//! contiguous byte buffer — status line, header block, blank line, body.

use vstd::prelude::*;
use vstd::string::StrSliceExecFns;
use vstd::string::StringExecFns;
use vstd::utf8::encode_utf8;

use crate::protocol::headers::HeaderView;
use crate::protocol::headers::Headers;
use crate::protocol::headers::headers_chars;
use crate::protocol::headers::headers_set;
use crate::protocol::lexical::HttpVersion;
use crate::protocol::lexical::version_chars;
use crate::protocol::status::StatusCode;
use crate::protocol::status::phrase_chars;
use crate::protocol::text::dec_chars;
use crate::protocol::text::usize_to_string;

verus! {

/// The first line of a response: protocol version and status code.
#[derive(Debug)]
pub struct StatusLine {
    version: HttpVersion,
    status: StatusCode,
}

/// The mathematical value of a [`StatusLine`].
pub struct StatusLineView {
    pub version: HttpVersion,
    pub status: u16,
}

impl View for StatusLine {
    type V = StatusLineView;

    closed spec fn view(&self) -> StatusLineView {
        StatusLineView { version: self.version, status: self.status@ }
    }
}

/// The wire form of a status line: `<version> <code> <reason>CRLF`, with
/// the code in decimal and the reason the code's default phrase.
pub open spec fn status_line_chars(v: HttpVersion, code: u16) -> Seq<char> {
    version_chars(v) + " "@ + dec_chars(code as nat) + " "@ + phrase_chars(code) + "\r\n"@
}

impl StatusLine {
    /// Builds a status line from a version and a status code.
    pub fn new(version: HttpVersion, status: StatusCode) -> (r: StatusLine)
        ensures
            r@ == (StatusLineView { version, status: status@ }),
    {
        StatusLine { version, status }
    }

    /// The wire form of this status line.
    pub fn to_http_message(&self) -> (r: String)
        ensures
            r@ == status_line_chars(self@.version, self@.status),
    {
        let mut s = self.version.as_str().to_owned();
        s.append(" ");
        let code = usize_to_string(self.status.code() as usize);
        s.append(code.as_str());
        s.append(" ");
        s.append(self.status.default_reason_phrase());
        s.append("\r\n");
        proof {
            assert(s@ =~= status_line_chars(self@.version, self@.status));
        }
        s
    }
}

/// A response ready to serialize: status line, headers, optional body.
/// Construction guarantees that a present body is reflected by an exact
/// `Content-Length` header.
#[derive(Debug)]
pub struct RawResponse {
    status_line: StatusLine,
    headers: Headers,
    body: Option<Vec<u8>>,
}

/// The mathematical value of a [`RawResponse`].
pub struct RawResponseView {
    pub status_line: StatusLineView,
    pub headers: Seq<HeaderView>,
    pub body: Option<Seq<u8>>,
}

impl View for RawResponse {
    type V = RawResponseView;

    closed spec fn view(&self) -> RawResponseView {
        RawResponseView {
            status_line: self.status_line@,
            headers: self.headers@,
            body: match self.body {
                Some(b) => Some(b@),
                None => None,
            },
        }
    }
}

/// The character part of a serialized response: the status line, each
/// header line in collection order, and the blank line that closes the
/// head.
pub open spec fn response_head_chars(r: RawResponseView) -> Seq<char> {
    status_line_chars(r.status_line.version, r.status_line.status) + headers_chars(r.headers)
        + "\r\n"@
}

/// The bytes of a whole serialized response: the head, then the raw body
/// bytes verbatim, or nothing when the body is absent.
pub open spec fn response_bytes(r: RawResponseView) -> Seq<u8> {
    encode_utf8(response_head_chars(r)) + (match r.body {
        Some(b) => b,
        None => Seq::<u8>::empty(),
    })
}

/// Serialization is deterministic: equal response values serialize to
/// byte-identical output, however often it is repeated.
pub proof fn lemma_encode_deterministic(a: RawResponseView, b: RawResponseView)
    requires
        a == b,
    ensures
        response_bytes(a) == response_bytes(b),
{
}

impl RawResponse {
    /// Builds a response. When a body is present, a `Content-Length` header
    /// holding its exact byte length is injected into the given headers —
    /// overwriting any value a caller supplied for that field.
    pub fn new(status_line: StatusLine, headers: Headers, body: Option<Vec<u8>>) -> (r:
        RawResponse)
        ensures
            r@ == (RawResponseView {
                status_line: status_line@,
                headers: match body {
                    Some(b) => headers_set(headers@, "Content-Length"@, dec_chars(b@.len())),
                    None => headers@,
                },
                body: match body {
                    Some(b) => Some(b@),
                    None => None,
                },
            }),
    {
        let mut headers = headers;
        let body = match body {
            Some(b) => {
                headers.set("Content-Length", usize_to_string(b.len()));
                Some(b)
            },
            None => None,
        };
        RawResponse { status_line, headers, body }
    }

    /// Serializes the response into one contiguous byte buffer: status
    /// line, header lines in collection order, a blank line, then the raw
    /// body bytes, and nothing else.
    pub fn into_vec(self) -> (r: Vec<u8>)
        ensures
            r@ == response_bytes(self@),
    {
        let RawResponse { status_line, headers, body } = self;
        let mut head = status_line.to_http_message();
        let header_block = headers.to_http_message();
        head.append(header_block.as_str());
        head.append("\r\n");
        proof {
            assert(head@ =~= response_head_chars(self@));
        }
        let mut out = head.as_str().as_bytes_vec();
        match body {
            Some(b) => {
                let mut tail = b;
                out.append(&mut tail);
            },
            None => {},
        }
        proof {
            assert(out@ =~= response_bytes(self@));
        }
        out
    }
}

} // verus!
