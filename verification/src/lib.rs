//! QR-code generation service core: format resolution and image encoding.
//!
//! The library turns a caller-supplied text string and a format token into
//! the bytes of a QR-code image (PNG, JPEG or SVG) together with the matching
//! MIME type. The surrounding HTTP runtime parses requests and attaches
//! headers; the origin allow-list check lives here so it can be verified.

use vstd::prelude::*;

pub mod codecs;
pub mod qrcode;

verus! {

/// Compare two string slices character by character.
pub fn str_eq(a: &str, b: &str) -> (r: bool)
    ensures
        r == (a@ == b@),
{
    let a_len = a.unicode_len();
    let b_len = b.unicode_len();
    if a_len != b_len {
        return false;
    }
    let mut i: usize = 0;
    while i < a_len
        invariant
            a_len == a@.len(),
            b_len == b@.len(),
            a_len == b_len,
            i <= a_len,
            forall|j: int| 0 <= j < i ==> a@[j] == b@[j],
        decreases a_len - i,
    {
        if a.get_char(i) != b.get_char(i) {
            return false;
        }
        i = i + 1;
    }
    proof {
        assert(a@ =~= b@);
    }
    true
}

/// The origins from which the surrounding HTTP layer accepts requests.
pub fn is_origin_allowed(origin: String) -> (r: bool)
    ensures
        r == (origin@ == "https://kerka.com.br"@ || origin@ == "http://localhost:3000"@),
{
    str_eq(origin.as_str(), "https://kerka.com.br") || str_eq(origin.as_str(), "http://localhost:3000")
}

} // verus!
