//! The 3-digit response status code and the default reason phrase attached
//! to each code the system enumerates.

use vstd::prelude::*;

verus! {

/// A response status code: a 16-bit numeric value. Any value is carried;
/// only the enumerated ones have a documented reason phrase.
#[derive(Clone, Copy, Debug, Eq, Hash, Ord, PartialEq, PartialOrd, Structural)]
pub struct StatusCode(pub u16);

impl View for StatusCode {
    type V = u16;

    open spec fn view(&self) -> u16 {
        self.0
    }
}

impl From<u16> for StatusCode {
    /// Wraps a numeric value as a status code.
    fn from(value: u16) -> (r: StatusCode) {
        StatusCode(value)
    }
}

impl vstd::std_specs::convert::FromSpecImpl<u16> for StatusCode {
    open spec fn obeys_from_spec() -> bool {
        true
    }

    open spec fn from_spec(t: u16) -> StatusCode {
        StatusCode(t)
    }
}

/// The default reason phrase of a status code: the documented phrase for
/// every code the system enumerates, and `"Unknown"` for any other value.
pub open spec fn phrase_chars(code: u16) -> Seq<char> {
    if code == 100 {
        "Continue"@
    } else if code == 101 {
        "Switching Protocols"@
    } else if code == 102 {
        "Processing"@
    } else if code == 103 {
        "Early Hints"@
    } else if code == 200 {
        "OK"@
    } else if code == 201 {
        "Created"@
    } else if code == 202 {
        "Accepted"@
    } else if code == 203 {
        "Non-Authoritative Information"@
    } else if code == 204 {
        "No Content"@
    } else if code == 205 {
        "Reset Content"@
    } else if code == 206 {
        "Partial Content"@
    } else if code == 207 {
        "Multi-Status"@
    } else if code == 208 {
        "Already Reported"@
    } else if code == 226 {
        "IM Used"@
    } else if code == 300 {
        "Multiple Choices"@
    } else if code == 301 {
        "Moved Permanently"@
    } else if code == 302 {
        "Found"@
    } else if code == 303 {
        "See Other"@
    } else if code == 304 {
        "Not Modified"@
    } else if code == 305 {
        "Use Proxy"@
    } else if code == 307 {
        "Temporary Redirect"@
    } else if code == 308 {
        "Permanent Redirect"@
    } else if code == 400 {
        "Bad Request"@
    } else if code == 401 {
        "Unauthorized"@
    } else if code == 402 {
        "Payment Required"@
    } else if code == 403 {
        "Forbidden"@
    } else if code == 404 {
        "Not Found"@
    } else if code == 405 {
        "Method Not Allowed"@
    } else if code == 406 {
        "Not Acceptable"@
    } else if code == 407 {
        "Proxy Authentication Required"@
    } else if code == 408 {
        "Request Timeout"@
    } else if code == 409 {
        "Conflict"@
    } else if code == 410 {
        "Gone"@
    } else if code == 411 {
        "Length Required"@
    } else if code == 412 {
        "Precondition Failed"@
    } else if code == 413 {
        "Payload Too Large"@
    } else if code == 414 {
        "URI Too Long"@
    } else if code == 415 {
        "Unsupported Media Type"@
    } else if code == 416 {
        "Range Not Satisfiable"@
    } else if code == 417 {
        "Expectation Failed"@
    } else if code == 421 {
        "Misdirected Request"@
    } else if code == 422 {
        "Unprocessable Entity"@
    } else if code == 423 {
        "Locked"@
    } else if code == 424 {
        "Failed Dependency"@
    } else if code == 426 {
        "Upgrade Required"@
    } else if code == 428 {
        "Precondition Required"@
    } else if code == 429 {
        "Too Many Requests"@
    } else if code == 431 {
        "Request Header Fields Too Large"@
    } else if code == 451 {
        "Unavailable For Legal Reasons"@
    } else if code == 500 {
        "Internal Server Error"@
    } else if code == 501 {
        "Not Implemented"@
    } else if code == 502 {
        "Bad Gateway"@
    } else if code == 503 {
        "Service Unavailable"@
    } else if code == 504 {
        "Gateway Timeout"@
    } else if code == 505 {
        "HTTP Version Not Supported"@
    } else if code == 506 {
        "Variant Also Negotiates"@
    } else if code == 507 {
        "Insufficient Storage"@
    } else if code == 508 {
        "Loop Detected"@
    } else if code == 510 {
        "Not Extended"@
    } else if code == 511 {
        "Network Authentication Required"@
    } else {
        "Unknown"@
    }
}

impl StatusCode {
    /// The numeric value of this status code.
    pub fn code(&self) -> (r: u16)
        ensures
            r == self@,
    {
        self.0
    }

    /// The reason phrase this system attaches to the code: the documented
    /// phrase for every enumerated code, and `"Unknown"` for any other
    /// numeric value. Total: it never fails.
    pub fn default_reason_phrase(&self) -> (r: &'static str)
        ensures
            r@ == phrase_chars(self@),
    {
        let c = self.0;
        if c == 100 {
            "Continue"
        } else if c == 101 {
            "Switching Protocols"
        } else if c == 102 {
            "Processing"
        } else if c == 103 {
            "Early Hints"
        } else if c == 200 {
            "OK"
        } else if c == 201 {
            "Created"
        } else if c == 202 {
            "Accepted"
        } else if c == 203 {
            "Non-Authoritative Information"
        } else if c == 204 {
            "No Content"
        } else if c == 205 {
            "Reset Content"
        } else if c == 206 {
            "Partial Content"
        } else if c == 207 {
            "Multi-Status"
        } else if c == 208 {
            "Already Reported"
        } else if c == 226 {
            "IM Used"
        } else if c == 300 {
            "Multiple Choices"
        } else if c == 301 {
            "Moved Permanently"
        } else if c == 302 {
            "Found"
        } else if c == 303 {
            "See Other"
        } else if c == 304 {
            "Not Modified"
        } else if c == 305 {
            "Use Proxy"
        } else if c == 307 {
            "Temporary Redirect"
        } else if c == 308 {
            "Permanent Redirect"
        } else if c == 400 {
            "Bad Request"
        } else if c == 401 {
            "Unauthorized"
        } else if c == 402 {
            "Payment Required"
        } else if c == 403 {
            "Forbidden"
        } else if c == 404 {
            "Not Found"
        } else if c == 405 {
            "Method Not Allowed"
        } else if c == 406 {
            "Not Acceptable"
        } else if c == 407 {
            "Proxy Authentication Required"
        } else if c == 408 {
            "Request Timeout"
        } else if c == 409 {
            "Conflict"
        } else if c == 410 {
            "Gone"
        } else if c == 411 {
            "Length Required"
        } else if c == 412 {
            "Precondition Failed"
        } else if c == 413 {
            "Payload Too Large"
        } else if c == 414 {
            "URI Too Long"
        } else if c == 415 {
            "Unsupported Media Type"
        } else if c == 416 {
            "Range Not Satisfiable"
        } else if c == 417 {
            "Expectation Failed"
        } else if c == 421 {
            "Misdirected Request"
        } else if c == 422 {
            "Unprocessable Entity"
        } else if c == 423 {
            "Locked"
        } else if c == 424 {
            "Failed Dependency"
        } else if c == 426 {
            "Upgrade Required"
        } else if c == 428 {
            "Precondition Required"
        } else if c == 429 {
            "Too Many Requests"
        } else if c == 431 {
            "Request Header Fields Too Large"
        } else if c == 451 {
            "Unavailable For Legal Reasons"
        } else if c == 500 {
            "Internal Server Error"
        } else if c == 501 {
            "Not Implemented"
        } else if c == 502 {
            "Bad Gateway"
        } else if c == 503 {
            "Service Unavailable"
        } else if c == 504 {
            "Gateway Timeout"
        } else if c == 505 {
            "HTTP Version Not Supported"
        } else if c == 506 {
            "Variant Also Negotiates"
        } else if c == 507 {
            "Insufficient Storage"
        } else if c == 508 {
            "Loop Detected"
        } else if c == 510 {
            "Not Extended"
        } else if c == 511 {
            "Network Authentication Required"
        } else {
            "Unknown"
        }
    }
}

} // verus!
