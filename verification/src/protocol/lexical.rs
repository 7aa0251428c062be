//! Lexical primitives of the wire format: the request method and the
//! protocol version, each a closed vocabulary with an exact string
//! round-trip.

use vstd::prelude::*;

use crate::protocol::ParseErrorView;
use crate::protocol::ParseRequestError;
use crate::protocol::text::str_eq;

verus! {

/// An HTTP request method, one of a fixed closed set.
#[derive(Clone, Copy, Debug, Eq, Hash, PartialEq, PartialOrd, Structural)]
pub enum Method {
    /// HTTP GET
    GET,
    /// HTTP HEAD
    HEAD,
    /// HTTP POST
    POST,
    /// HTTP PUT
    PUT,
    /// HTTP DELETE
    DELETE,
    /// HTTP PATCH
    PATCH,
    /// HTTP OPTIONS
    OPTIONS,
    /// HTTP TRACE
    TRACE,
}

/// The exact token that names a method on the wire.
pub open spec fn method_chars(m: Method) -> Seq<char> {
    match m {
        Method::GET => "GET"@,
        Method::HEAD => "HEAD"@,
        Method::POST => "POST"@,
        Method::PUT => "PUT"@,
        Method::DELETE => "DELETE"@,
        Method::PATCH => "PATCH"@,
        Method::OPTIONS => "OPTIONS"@,
        Method::TRACE => "TRACE"@,
    }
}

/// Which method, if any, a token names: an exact, case-sensitive match
/// against the closed vocabulary.
pub open spec fn method_of_chars(s: Seq<char>) -> Option<Method> {
    if s == "GET"@ {
        Some(Method::GET)
    } else if s == "HEAD"@ {
        Some(Method::HEAD)
    } else if s == "POST"@ {
        Some(Method::POST)
    } else if s == "PUT"@ {
        Some(Method::PUT)
    } else if s == "DELETE"@ {
        Some(Method::DELETE)
    } else if s == "PATCH"@ {
        Some(Method::PATCH)
    } else if s == "OPTIONS"@ {
        Some(Method::OPTIONS)
    } else if s == "TRACE"@ {
        Some(Method::TRACE)
    } else {
        None
    }
}

impl Method {
    /// Parses a method token. Only an exact match against the closed set is
    /// accepted; any other token is rejected with the offending text.
    pub fn parse(s: &str) -> (r: Result<Method, ParseRequestError>)
        ensures
            match r {
                Ok(m) => method_of_chars(s@) == Some(m),
                Err(e) => method_of_chars(s@) is None && e@ == ParseErrorView::UnknownMethod(s@),
            },
    {
        if str_eq(s, "GET") {
            Ok(Method::GET)
        } else if str_eq(s, "HEAD") {
            Ok(Method::HEAD)
        } else if str_eq(s, "POST") {
            Ok(Method::POST)
        } else if str_eq(s, "PUT") {
            Ok(Method::PUT)
        } else if str_eq(s, "DELETE") {
            Ok(Method::DELETE)
        } else if str_eq(s, "PATCH") {
            Ok(Method::PATCH)
        } else if str_eq(s, "OPTIONS") {
            Ok(Method::OPTIONS)
        } else if str_eq(s, "TRACE") {
            Ok(Method::TRACE)
        } else {
            Err(ParseRequestError::UnknownMethod(s.to_owned()))
        }
    }

    /// The wire token of this method: the exact inverse of [`Method::parse`].
    pub fn as_str(&self) -> (r: &str)
        ensures
            r@ == method_chars(*self),
    {
        match self {
            Method::GET => "GET",
            Method::HEAD => "HEAD",
            Method::POST => "POST",
            Method::PUT => "PUT",
            Method::DELETE => "DELETE",
            Method::PATCH => "PATCH",
            Method::OPTIONS => "OPTIONS",
            Method::TRACE => "TRACE",
        }
    }
}

/// Round-trip law: parsing the wire token of any method yields that method
/// back.
pub proof fn lemma_method_round_trip(m: Method)
    ensures
        method_of_chars(method_chars(m)) == Some(m),
{
    reveal_strlit("GET");
    reveal_strlit("HEAD");
    reveal_strlit("POST");
    reveal_strlit("PUT");
    reveal_strlit("DELETE");
    reveal_strlit("PATCH");
    reveal_strlit("OPTIONS");
    reveal_strlit("TRACE");
    assert("GET"@.len() == 3 && "HEAD"@.len() == 4 && "POST"@.len() == 4 && "PUT"@.len() == 3
        && "DELETE"@.len() == 6 && "PATCH"@.len() == 5 && "OPTIONS"@.len() == 7 && "TRACE"@.len()
        == 5);
    assert("GET"@[0] == 'G' && "PUT"@[0] == 'P' && "HEAD"@[0] == 'H' && "POST"@[0] == 'P'
        && "PATCH"@[0] == 'P' && "TRACE"@[0] == 'T');
}

/// An HTTP protocol version token, one of a fixed closed set.
#[derive(Clone, Copy, Debug, Eq, Hash, PartialEq, PartialOrd, Structural)]
pub enum HttpVersion {
    Http0_9,
    Http1_0,
    Http1_1,
}

/// The exact token that names a protocol version on the wire.
pub open spec fn version_chars(v: HttpVersion) -> Seq<char> {
    match v {
        HttpVersion::Http0_9 => "HTTP/0.9"@,
        HttpVersion::Http1_0 => "HTTP/1.0"@,
        HttpVersion::Http1_1 => "HTTP/1.1"@,
    }
}

/// Which version, if any, a token names: an exact, case-sensitive match.
pub open spec fn version_of_chars(s: Seq<char>) -> Option<HttpVersion> {
    if s == "HTTP/0.9"@ {
        Some(HttpVersion::Http0_9)
    } else if s == "HTTP/1.0"@ {
        Some(HttpVersion::Http1_0)
    } else if s == "HTTP/1.1"@ {
        Some(HttpVersion::Http1_1)
    } else {
        None
    }
}

impl HttpVersion {
    /// Parses a version token. Only an exact match is accepted; any other
    /// token is rejected with the offending text.
    pub fn parse(s: &str) -> (r: Result<HttpVersion, ParseRequestError>)
        ensures
            match r {
                Ok(v) => version_of_chars(s@) == Some(v),
                Err(e) => version_of_chars(s@) is None && e@ == ParseErrorView::UnknownHttpVersion(
                    s@,
                ),
            },
    {
        if str_eq(s, "HTTP/0.9") {
            Ok(HttpVersion::Http0_9)
        } else if str_eq(s, "HTTP/1.0") {
            Ok(HttpVersion::Http1_0)
        } else if str_eq(s, "HTTP/1.1") {
            Ok(HttpVersion::Http1_1)
        } else {
            Err(ParseRequestError::UnknownHttpVersion(s.to_owned()))
        }
    }

    /// The wire token of this version: the exact inverse of
    /// [`HttpVersion::parse`].
    pub fn as_str(&self) -> (r: &str)
        ensures
            r@ == version_chars(*self),
    {
        match self {
            HttpVersion::Http0_9 => "HTTP/0.9",
            HttpVersion::Http1_0 => "HTTP/1.0",
            HttpVersion::Http1_1 => "HTTP/1.1",
        }
    }
}

/// Round-trip law: parsing the wire token of any version yields that
/// version back.
pub proof fn lemma_version_round_trip(v: HttpVersion)
    ensures
        version_of_chars(version_chars(v)) == Some(v),
{
    reveal_strlit("HTTP/0.9");
    reveal_strlit("HTTP/1.0");
    reveal_strlit("HTTP/1.1");
    assert("HTTP/0.9"@[5] == '0' && "HTTP/1.0"@[5] == '1' && "HTTP/1.1"@[5] == '1');
    assert("HTTP/1.0"@[7] == '0' && "HTTP/1.1"@[7] == '1');
}

} // verus!

