//! Strings that cross the native boundary.
//!
//! Going in, an address becomes a C string. Coming out, the driver returns
//! strings under two conventions that must not be confused. An *owned* string
//! is an allocation that passes to the caller, who copies the text out of it
//! and then owes the driver one release of it. A *borrowed* string stays in
//! the driver's storage: it is read where it lies, and never released. The
//! two are decoded by different functions with different result types, so
//! that what was received under one cannot be treated as the other.

use vstd::prelude::*;
use vstd::utf8::{decode_utf8, encode_utf8, valid_utf8};

use crate::driver::{Handle, Release, NULL};
use crate::error::OpenError;

verus! {

/// The C string that holds `text`: the same bytes and a terminating zero.
/// There is none where `text` itself holds a zero byte, for the string would
/// end there.
pub open spec fn c_string(text: Seq<u8>) -> Option<Seq<u8>> {
    if text.contains(0u8) {
        None
    } else {
        Some(text.push(0u8))
    }
}

/// The bytes to hand to the driver as the address of a device. The address
/// is not interpreted; one that cannot be written as a C string names no
/// device that the driver could open.
pub fn connection_string(address: &str) -> (r: Result<Vec<u8>, OpenError>)
    ensures
        match c_string(encode_utf8(address@)) {
            Some(bytes) => r matches Ok(v) && v@ == bytes,
            None => r is Err,
        },
{
    let source = address.as_bytes();
    let mut bytes: Vec<u8> = Vec::new();
    let mut i: usize = 0;
    while i < source.len()
        invariant
            i <= source@.len(),
            source@ == encode_utf8(address@),
            bytes@ == source@.subrange(0, i as int),
            forall|j: int| 0 <= j < i ==> source@[j] != 0u8,
        decreases source@.len() - i,
    {
        let byte = source[i];
        if byte == 0 {
            return Err(OpenError);
        }
        bytes.push(byte);
        i += 1;
    }
    bytes.push(0);
    Ok(bytes)
}

/// The text that a lossy decoding makes of `bytes`: what the bytes say where
/// they are UTF-8, with a replacement character for each part that is not.
pub uninterp spec fn lossy_text(bytes: Seq<u8>) -> Seq<char>;

/// Decodes bytes that may not be UTF-8, by `String::from_utf8_lossy`.
///
/// Trusted, not proved. The result is a function of the bytes alone, named
/// [`lossy_text`]. Two things are taken from the documentation of the
/// function: bytes that are valid UTF-8 decode to the text they encode; and
/// every invalid part is replaced by U+FFFD rather than dropped, so that
/// bytes which are not empty never decode to an empty text.
#[verifier::external_body]
pub(crate) fn decode_lossy(bytes: &[u8]) -> (text: String)
    ensures
        text@ == lossy_text(bytes@),
        valid_utf8(bytes@) ==> text@ == decode_utf8(bytes@),
        bytes@.len() > 0 ==> text@.len() > 0,
{
    String::from_utf8_lossy(bytes).into_owned()
}

/// Reads bytes as text where they lie, by `core::str::from_utf8`.
///
/// Trusted, not proved. The function accepts exactly the byte strings that
/// are valid UTF-8, and the slice it returns is the text that they encode.
#[verifier::external_body]
pub(crate) fn decode_strict<'a>(bytes: &'a [u8]) -> (text: Option<&'a str>)
    ensures
        match text {
            Some(s) => valid_utf8(bytes@) && s@ == decode_utf8(bytes@),
            None => !valid_utf8(bytes@),
        },
{
    match core::str::from_utf8(bytes) {
        Ok(s) => Some(s),
        Err(_) => None,
    }
}

/// The release that is owed for a string which the driver handed over at
/// `text`: one, unless the driver handed over nothing.
pub open spec fn owed_for(text: Handle) -> Option<Release> {
    if text == NULL {
        None
    } else {
        Some(Release::FreeText { text })
    }
}

/// The owned convention. `text` is what the driver returned, and `decoded`
/// the text of the bytes found there. Where the driver returned a string, the
/// caller gets the text together with the release that is now owed for the
/// allocation; where it returned `NULL`, neither.
pub fn take_owned(text: Handle, decoded: String) -> (r: (Option<String>, Option<Release>))
    ensures
        r.0 == (if text == NULL { None } else { Some(decoded) }),
        r.1 == owed_for(text),
{
    if text == NULL {
        (None, None)
    } else {
        (Some(decoded), Some(Release::FreeText { text }))
    }
}

} // verus!
