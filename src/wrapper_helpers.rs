//! Conversion of the native side's textual diagnostics into host strings.
use crate::error_handling::{Error, Result};
use vstd::prelude::*;
use vstd::utf8::{decode_utf8, valid_utf8};

verus! {

/// Relies on `std::str::from_utf8`: it accepts exactly the valid UTF-8 byte
/// sequences, and the text it yields is what those bytes encode.
#[verifier::external_body]
fn utf8_text(bytes: &[u8]) -> (r: Option<String>)
    ensures
        r is Some <==> valid_utf8(bytes@),
        r matches Some(s) ==> s@ == decode_utf8(bytes@),
{
    std::str::from_utf8(bytes).ok().map(|s| s.to_string())
}

/// Reads a diagnostic handed over by the native side: `None` stands for a null
/// pointer, `Some(bytes)` for the bytes before the terminating NUL.
/// Fails with `InvalidString`, naming `func`, when there is no text or it is not UTF-8.
pub fn from_const(func: &str, s: Option<&[u8]>) -> (r: Result<String>)
    ensures
        r is Ok <==> (s matches Some(b) && valid_utf8(b@)),
        r matches Ok(text) ==> text@ == decode_utf8(s->Some_0@),
        r matches Err(e) ==> e.1 is InvalidString && (e.0 matches Some(f) && f@ == func@),
{
    match s {
        None => Err(Error::invalid_str(func)),
        Some(bytes) => match utf8_text(bytes) {
            Some(text) => Ok(text),
            None => Err(Error::invalid_str(func)),
        },
    }
}

} // verus!
