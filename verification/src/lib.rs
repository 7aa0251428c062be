//! An HTTP/1.x message codec: decoding a byte stream into a structured
//! request, and serializing a structured response back into bytes.

pub mod protocol;
