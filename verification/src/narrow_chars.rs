//! Decoding of the null-terminated narrow strings that the native side
//! returns.

use vstd::prelude::*;
use vstd::slice::{slice_subrange, slice_to_vec};
use vstd::utf8::{decode_utf8, valid_utf8};
use crate::error::{DecodeFailure, Error, ErrorView};
use crate::strings::string_from_utf8;

verus! {

/// The longest text, in bytes, that a scan for the terminator accepts.
pub const MAX_NARROW_LEN: usize = 32767;

/// What a native narrow string decodes to. `None` stands for a null pointer.
/// The text ends before the first zero byte, which must come after at most
/// `MAX_NARROW_LEN` bytes, and must be UTF-8.
pub open spec fn decode_narrow(p: Option<Seq<u8>>) -> Result<Seq<char>, DecodeFailure> {
    match p {
        None => Err(DecodeFailure::Null),
        Some(bytes) => match bytes.index_of_first(0u8) {
            None => Err(DecodeFailure::Unterminated),
            Some(n) => if n > MAX_NARROW_LEN {
                Err(DecodeFailure::Unterminated)
            } else if valid_utf8(bytes.take(n)) {
                Ok(decode_utf8(bytes.take(n)))
            } else {
                Err(DecodeFailure::Malformed)
            },
        },
    }
}

/// The bytes behind a buffer that may be absent.
pub open spec fn bytes_of(p: Option<&[u8]>) -> Option<Seq<u8>> {
    match p {
        None => None,
        Some(bytes) => Some(bytes@),
    }
}

/// Decodes a narrow string that the native side returned. `None` stands for
/// a null pointer; a buffer is read up to its first zero byte. Fails where
/// there is no buffer, no zero byte after at most `MAX_NARROW_LEN` bytes, or
/// where the bytes before it are not UTF-8.
pub fn narrow_text(p: Option<&[u8]>) -> (r: Result<String, DecodeFailure>)
    ensures
        match r {
            Ok(text) => decode_narrow(bytes_of(p)) == Ok::<Seq<char>, DecodeFailure>(text@),
            Err(f) => decode_narrow(bytes_of(p)) == Err::<Seq<char>, DecodeFailure>(f),
        },
{
    match p {
        None => Err(DecodeFailure::Null),
        Some(bytes) => {
            let mut n: usize = 0;
            while n < bytes.len() && n <= MAX_NARROW_LEN && bytes[n] != 0
                invariant
                    n <= bytes@.len(),
                    n <= MAX_NARROW_LEN + 1,
                    forall|j: int| 0 <= j < n ==> bytes@[j] != 0,
                decreases bytes@.len() - n,
            {
                n = n + 1;
            }
            proof {
                bytes@.index_of_first_ensures(0u8);
            }
            if n < bytes.len() && n <= MAX_NARROW_LEN {
                let body = slice_to_vec(slice_subrange(bytes, 0, n));
                assert(body@ =~= bytes@.take(n as int));
                match string_from_utf8(body) {
                    Some(text) => Ok(text),
                    None => Err(DecodeFailure::Malformed),
                }
            } else {
                Err(DecodeFailure::Unterminated)
            }
        },
    }
}

/// `narrow_text`, with its failure as an `Error`.
pub fn from_vec_u8(p: Option<&[u8]>) -> (r: Result<String, Error>)
    ensures
        match r {
            Ok(text) => decode_narrow(bytes_of(p)) == Ok::<Seq<char>, DecodeFailure>(text@),
            Err(e) => decode_narrow(bytes_of(p)) matches Err(f) && e@ == ErrorView::DecodeError(f),
        },
{
    match narrow_text(p) {
        Ok(text) => Ok(text),
        Err(failure) => Err(Error::DecodeError(failure)),
    }
}

} // verus!
