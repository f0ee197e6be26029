//! The origins that cross-origin requests are allowed from.
use crate::config::{split_commas, BaseConfig};
use http::header::InvalidHeaderValue;
use http::HeaderValue;
use vstd::prelude::*;
use vstd::string::StringSliceAdditionalSpecFns;
use vstd::utf8::encode_utf8;

verus! {

#[verifier::external_type_specification]
#[verifier::external_body]
pub struct ExHeaderValue(http::HeaderValue);

#[verifier::external_type_specification]
#[verifier::external_body]
pub struct ExInvalidHeaderValue(http::header::InvalidHeaderValue);

/// Whether a byte may stand in an HTTP header value: a tab, or any byte
/// from 32 up but 127.
pub open spec fn header_byte_ok(b: u8) -> bool {
    (32 <= b && b != 127) || b == 9
}

/// Whether a text may be an HTTP header value: every byte of its UTF-8
/// form may stand in one.
pub open spec fn header_text_ok(s: Seq<char>) -> bool {
    forall|i: int| 0 <= i < encode_utf8(s).len() ==> header_byte_ok(#[trigger] encode_utf8(s)[i])
}

/// The bytes that a header value holds.
pub uninterp spec fn header_value_bytes(v: HeaderValue) -> Seq<u8>;

/// Relies on `http`'s `HeaderValue::from_str`, which accepts exactly the
/// texts whose every byte is a tab, or at least 32 and not 127, and keeps
/// a copy of the text's bytes.
#[verifier::external_body]
fn parse_header_value(s: &str) -> (r: Result<HeaderValue, InvalidHeaderValue>)
    ensures
        r is Ok <==> header_text_ok(s@),
        r matches Ok(v) ==> header_value_bytes(v) == s.spec_bytes(),
{
    HeaderValue::from_str(s)
}

/// Whether `s` can be an HTTP header value.
pub fn is_header_text(s: &str) -> (r: bool)
    ensures
        r == header_text_ok(s@),
{
    parse_header_value(s).is_ok()
}

/// An allowed origin that cannot be an HTTP header value.
#[derive(Clone, Copy, Debug, PartialEq, Eq, Structural)]
pub struct InvalidOrigin {
    /// The position of the first such origin in the comma-separated list.
    pub position: usize,
}

impl InvalidOrigin {
    /// The HTTP status that reports this error: the request (here, the
    /// configuration) is malformed.
    pub fn status_code(&self) -> (r: u16)
        ensures
            r == 400,
    {
        400
    }
}

/// The allowed origins of `config`, in order, each as a header value that
/// holds its text; fails at the first origin that cannot be one.
pub fn cors_origins(config: &BaseConfig) -> (r: Result<Vec<HeaderValue>, InvalidOrigin>)
    ensures
        ({
            let pieces = split_commas(config.allowed_origins@);
            &&& r is Ok <==> forall|k: int| 0 <= k < pieces.len() ==> header_text_ok(#[trigger] pieces[k])
            &&& r matches Ok(v) ==> v@.len() == pieces.len() && forall|k: int|
                0 <= k < pieces.len() ==> header_value_bytes(#[trigger] v@[k]) == encode_utf8(pieces[k])
            &&& r matches Err(e) ==> e.position < pieces.len() && !header_text_ok(pieces[e.position as int])
                && forall|k: int| 0 <= k < e.position ==> header_text_ok(#[trigger] pieces[k])
        }),
{
    let origins = config.origin_list();
    let ghost pieces = split_commas(config.allowed_origins@);
    let mut values: Vec<HeaderValue> = Vec::new();
    let mut i: usize = 0;
    while i < origins.len()
        invariant
            pieces == split_commas(config.allowed_origins@),
            i <= origins@.len(),
            origins@.len() == pieces.len(),
            forall|k: int| 0 <= k < origins@.len() ==> origins@[k]@ == #[trigger] pieces[k],
            values@.len() == i,
            forall|k: int|
                0 <= k < i ==> header_value_bytes(#[trigger] values@[k]) == encode_utf8(pieces[k]),
            forall|k: int| 0 <= k < i ==> header_text_ok(#[trigger] pieces[k]),
        decreases origins@.len() - i,
    {
        match parse_header_value(origins[i].as_str()) {
            Ok(v) => {
                values.push(v);
            },
            Err(_) => {
                assert(!header_text_ok(pieces[i as int]));
                return Err(InvalidOrigin { position: i });
            },
        }
        i += 1;
    }
    Ok(values)
}

} // verus!
