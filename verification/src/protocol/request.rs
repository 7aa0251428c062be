//! The request decoder: a byte buffer is read as a request line, a header
//! block, and an optional fixed-length body, exactly as the wire format
//! prescribes.

use vstd::prelude::*;
use vstd::slice::slice_subrange;
use vstd::slice::slice_to_vec;
use vstd::utf8::decode_utf8;
use vstd::utf8::valid_utf8;

use crate::protocol::IoErrorKind;
use crate::protocol::ParseErrorView;
use crate::protocol::ParseRequestError;
use crate::protocol::headers::Header;
use crate::protocol::headers::HeaderView;
use crate::protocol::headers::Headers;
use crate::protocol::headers::header_of_chars;
use crate::protocol::headers::headers_get;
use crate::protocol::lexical::HttpVersion;
use crate::protocol::lexical::Method;
use crate::protocol::lexical::method_of_chars;
use crate::protocol::lexical::version_of_chars;
use crate::protocol::text::find_char;
use crate::protocol::text::find_char_from;
use crate::protocol::text::find_crlf;
use crate::protocol::text::find_crlf_from;
use crate::protocol::text::lemma_find_crlf_from;
use crate::protocol::text::parse_usize;
use crate::protocol::text::parse_usize_chars;

verus! {

/// What `String::from_utf8_lossy` makes of a byte sequence: its characters,
/// with every invalid sequence replaced.
pub uninterp spec fn lossy_utf8(bytes: Seq<u8>) -> Seq<char>;

/// Relies on String::from_utf8_lossy: the result is a function of the bytes
/// alone, and bytes that are valid UTF-8 decode exactly, with nothing
/// replaced.
#[verifier::external_body]
fn lossy_string(bytes: &[u8]) -> (r: String)
    ensures
        r@ == lossy_utf8(bytes@),
        valid_utf8(bytes@) ==> r@ == decode_utf8(bytes@),
{
    String::from_utf8_lossy(bytes).into_owned()
}

/// The parsed first line of a request: method, uninterpreted target, and
/// protocol version.
#[derive(Debug)]
pub struct RequestLine {
    pub method: Method,
    pub uri: String,
    pub version: HttpVersion,
}

/// The mathematical value of a [`RequestLine`].
pub struct RequestLineView {
    pub method: Method,
    pub uri: Seq<char>,
    pub version: HttpVersion,
}

impl View for RequestLine {
    type V = RequestLineView;

    open spec fn view(&self) -> RequestLineView {
        RequestLineView { method: self.method, uri: self.uri@, version: self.version }
    }
}

/// What a request line denotes, if anything: the line splits on single
/// spaces; the first token must name a method, the third a version, and
/// the second is the target, passed through uninterpreted. Anything else —
/// fewer than three tokens, or a token outside its vocabulary — denotes
/// nothing.
pub open spec fn request_line_of_chars(s: Seq<char>) -> Option<RequestLineView> {
    match find_char_from(s, ' ', 0) {
        None => None,
        Some(i1) => match find_char_from(s, ' ', i1 + 1) {
            None => None,
            Some(i2) => {
                let tok0 = s.take(i1);
                let tok1 = s.subrange(i1 + 1, i2);
                let tok2 = match find_char_from(s, ' ', i2 + 1) {
                    None => s.subrange(i2 + 1, s.len() as int),
                    Some(i3) => s.subrange(i2 + 1, i3),
                };
                match (method_of_chars(tok0), version_of_chars(tok2)) {
                    (Some(m), Some(v)) => Some(
                        RequestLineView { method: m, uri: tok1, version: v },
                    ),
                    _ => None,
                }
            },
        },
    }
}

impl RequestLine {
    /// Parses the first line of a request. A line that does not split into
    /// method, target and version is rejected whole, echoing the raw line.
    pub fn parse(s: &str) -> (r: Result<RequestLine, ParseRequestError>)
        ensures
            match r {
                Ok(rl) => request_line_of_chars(s@) == Some(rl@),
                Err(e) => request_line_of_chars(s@) is None && e@ == ParseErrorView::RequestLine(
                    s@,
                ),
            },
    {
        let len = s.unicode_len();
        match find_char(s, ' ', 0) {
            None => Err(ParseRequestError::RequestLine(s.to_owned())),
            Some(i1) => match find_char(s, ' ', i1 + 1) {
                None => Err(ParseRequestError::RequestLine(s.to_owned())),
                Some(i2) => {
                    let tok0 = s.substring_char(0, i1);
                    let tok1 = s.substring_char(i1 + 1, i2);
                    let tok2 = match find_char(s, ' ', i2 + 1) {
                        None => s.substring_char(i2 + 1, len),
                        Some(i3) => s.substring_char(i2 + 1, i3),
                    };
                    proof {
                        assert(s@.subrange(0, i1 as int) =~= s@.take(i1 as int));
                    }
                    match (Method::parse(tok0), HttpVersion::parse(tok2)) {
                        (Ok(m), Ok(v)) => Ok(
                            RequestLine { method: m, uri: tok1.to_owned(), version: v },
                        ),
                        _ => Err(ParseRequestError::RequestLine(s.to_owned())),
                    }
                },
            },
        }
    }
}

/// A fully decoded request: the request line, the headers in arrival
/// order, and the body when a valid `Content-Length` declared one.
#[derive(Debug)]
pub struct RawRequest {
    pub request_line: RequestLine,
    pub headers: Headers,
    pub body: Option<Vec<u8>>,
}

/// The mathematical value of a [`RawRequest`].
pub struct RawRequestView {
    pub request_line: RequestLineView,
    pub headers: Seq<HeaderView>,
    pub body: Option<Seq<u8>>,
}

impl View for RawRequest {
    type V = RawRequestView;

    open spec fn view(&self) -> RawRequestView {
        RawRequestView {
            request_line: self.request_line@,
            headers: self.headers@,
            body: match self.body {
                Some(b) => Some(b@),
                None => None,
            },
        }
    }
}

/// Reads header lines from `pos` on, collecting onto `hs`, until the empty
/// line that closes the block: the collected headers and the position just
/// past the blank line. Running out of input is a transport failure; a
/// malformed line aborts with the header error.
pub open spec fn headers_block_spec(input: Seq<u8>, pos: int, hs: Seq<HeaderView>) -> Result<
    (Seq<HeaderView>, int),
    ParseErrorView,
>
    decreases input.len() - pos,
    via headers_block_spec_dec
{
    match find_crlf_from(input, pos) {
        None => Err(ParseErrorView::Io(IoErrorKind::UnexpectedEof)),
        Some(j) => {
            if j == pos {
                Ok((hs, pos + 2))
            } else {
                let line = lossy_utf8(input.subrange(pos, j));
                match header_of_chars(line) {
                    Some(h) => headers_block_spec(input, j + 2, hs.push(h)),
                    None => Err(ParseErrorView::InvalidHeader(line)),
                }
            }
        },
    }
}

#[via_fn]
proof fn headers_block_spec_dec(input: Seq<u8>, pos: int, hs: Seq<HeaderView>) {
    if 0 <= pos {
        lemma_find_crlf_from(input, pos);
    }
}

/// The body after the header block: nothing unless a `Content-Length`
/// header declares a length; exactly that many bytes when they are all
/// there; a transport failure when they are not.
pub open spec fn decode_body_spec(
    rl: RequestLineView,
    hs: Seq<HeaderView>,
    input: Seq<u8>,
    pos: int,
) -> Result<RawRequestView, ParseErrorView> {
    match headers_get(hs, "Content-Length"@) {
        None => Ok(RawRequestView { request_line: rl, headers: hs, body: None }),
        Some(v) => match parse_usize_chars(v) {
            None => Ok(RawRequestView { request_line: rl, headers: hs, body: None }),
            Some(n) => {
                if pos + n <= input.len() {
                    Ok(
                        RawRequestView {
                            request_line: rl,
                            headers: hs,
                            body: Some(input.subrange(pos, pos + n)),
                        },
                    )
                } else {
                    Err(ParseErrorView::Io(IoErrorKind::UnexpectedEof))
                }
            },
        },
    }
}

/// What a whole byte buffer decodes to: the request line up to the first
/// `CR LF`, then the header block, then the body; or the first failure.
pub open spec fn decode_request_spec(input: Seq<u8>) -> Result<RawRequestView, ParseErrorView> {
    match find_crlf_from(input, 0) {
        None => Err(ParseErrorView::Io(IoErrorKind::UnexpectedEof)),
        Some(i) => {
            let line = lossy_utf8(input.subrange(0, i));
            match request_line_of_chars(line) {
                None => Err(ParseErrorView::RequestLine(line)),
                Some(rl) => match headers_block_spec(input, i + 2, Seq::empty()) {
                    Err(e) => Err(e),
                    Ok((hs, body_pos)) => decode_body_spec(rl, hs, input, body_pos),
                },
            }
        },
    }
}

/// Reads the header block of a request starting at `start`.
fn read_header_block(input: &[u8], start: usize) -> (r: Result<
    (Headers, usize),
    ParseRequestError,
>)
    requires
        start <= input@.len(),
    ensures
        match r {
            Ok((hs, pos)) => headers_block_spec(input@, start as int, Seq::empty()) == Ok::<
                _,
                ParseErrorView,
            >((hs@, pos as int)) && pos <= input@.len(),
            Err(e) => headers_block_spec(input@, start as int, Seq::empty()) == Err::<
                (Seq<HeaderView>, int),
                _,
            >(e@),
        },
{
    let n = input.len();
    let mut headers = Headers::empty();
    let mut pos: usize = start;
    loop
        invariant
            n == input@.len(),
            pos <= input@.len(),
            headers_block_spec(input@, start as int, Seq::empty()) == headers_block_spec(
                input@,
                pos as int,
                headers@,
            ),
        decreases input@.len() - pos,
    {
        match find_crlf(input, pos) {
            None => {
                return Err(ParseRequestError::Io(IoErrorKind::UnexpectedEof));
            },
            Some(j) => {
                if j == pos {
                    return Ok((headers, pos + 2));
                }
                let line = lossy_string(slice_subrange(input, pos, j));
                match Header::parse(line.as_str()) {
                    Ok(h) => {
                        headers.push(h);
                        pos = j + 2;
                    },
                    Err(e) => {
                        return Err(e);
                    },
                }
            },
        }
    }
}

/// Decodes one request from a byte buffer: the request line up to the
/// first `CR LF`, then header lines until an empty line, then exactly the
/// declared number of body bytes. The first failure is returned, carrying
/// the offending raw input; bytes past the request are ignored.
pub fn read_http_request(input: &[u8]) -> (r: Result<RawRequest, ParseRequestError>)
    ensures
        match r {
            Ok(req) => decode_request_spec(input@) == Ok::<_, ParseErrorView>(req@),
            Err(e) => decode_request_spec(input@) == Err::<RawRequestView, _>(e@),
        },
{
    let total = input.len();
    match find_crlf(input, 0) {
        None => Err(ParseRequestError::Io(IoErrorKind::UnexpectedEof)),
        Some(i) => {
            let line = lossy_string(slice_subrange(input, 0, i));
            match RequestLine::parse(line.as_str()) {
                Err(e) => Err(e),
                Ok(request_line) => match read_header_block(input, i + 2) {
                    Err(e) => Err(e),
                    Ok((headers, body_pos)) => {
                        let body: Option<Vec<u8>> = {
                            let declared: Option<usize> = match headers.get("Content-Length") {
                                Some(v) => parse_usize(v),
                                None => None,
                            };
                            match declared {
                                Some(n) => {
                                    if n <= total - body_pos {
                                        Some(
                                            slice_to_vec(
                                                slice_subrange(input, body_pos, body_pos + n),
                                            ),
                                        )
                                    } else {
                                        return Err(
                                            ParseRequestError::Io(IoErrorKind::UnexpectedEof),
                                        );
                                    }
                                },
                                None => None,
                            }
                        };
                        Ok(RawRequest { request_line, headers, body })
                    },
                },
            }
        },
    }
}

} // verus!
