//! Conversion between text and the null-terminated 16-bit strings of the
//! native calling convention.

use vstd::prelude::*;
use vstd::utf8::is_scalar;
use crate::error::{DecodeFailure, Error, ErrorView};
use crate::strings::{char_from_u32, push_char};

verus! {

/// The longest text, in code units, that a scan for the terminator accepts.
pub const MAX_WIDE_LEN: usize = 32767;

/// What stands in for a code unit that is no part of any character.
pub const REPLACEMENT: char = '\u{FFFD}';

/// The UTF-16 code units of one character: itself below `0x10000`, a
/// surrogate pair above.
pub open spec fn encode_scalar(c: char) -> Seq<u16> {
    let v = c as u32;
    if v < 0x10000 {
        seq![v as u16]
    } else {
        seq![
            (0xD800 + (v - 0x10000) / 0x400) as u16,
            (0xDC00 + (v - 0x10000) % 0x400) as u16,
        ]
    }
}

/// The UTF-16 code units of a text, character by character.
pub open spec fn encode_utf16(text: Seq<char>) -> Seq<u16>
    decreases text.len(),
{
    if text.len() == 0 {
        Seq::empty()
    } else {
        encode_scalar(text[0]) + encode_utf16(text.skip(1))
    }
}

/// The wide string handed to the native side: the code units of `text`
/// followed by one terminating zero.
pub open spec fn wide(text: Seq<char>) -> Seq<u16> {
    encode_utf16(text).push(0u16)
}

/// The code units of two texts in a row are those of the first followed by
/// those of the second.
pub proof fn lemma_encode_utf16_concat(a: Seq<char>, b: Seq<char>)
    ensures
        encode_utf16(a + b) == encode_utf16(a) + encode_utf16(b),
    decreases a.len(),
{
    if a.len() == 0 {
        assert(a + b =~= b);
        assert(encode_utf16(a) + encode_utf16(b) =~= encode_utf16(b));
    } else {
        assert((a + b).skip(1) =~= a.skip(1) + b);
        lemma_encode_utf16_concat(a.skip(1), b);
        assert(encode_scalar(a[0]) + (encode_utf16(a.skip(1)) + encode_utf16(b))
            =~= (encode_scalar(a[0]) + encode_utf16(a.skip(1))) + encode_utf16(b));
    }
}

/// Encodes `s` as a wide string: its UTF-16 code units and one terminating
/// zero. Never fails.
pub fn to_vec_u16(s: &str) -> (units: Vec<u16>)
    ensures
        units@ == wide(s@),
{
    let mut units: Vec<u16> = Vec::new();
    let ghost mut done: Seq<char> = Seq::empty();
    for c in it: s.chars()
        invariant
            it.seq() == s@,
            done == s@.take(it.index() as int),
            units@ == encode_utf16(done),
    {
        let v: u32 = c as u32;
        proof {
            assert(c == s@[it.index()]);
            lemma_encode_utf16_concat(done, seq![c]);
            assert(seq![c].skip(1) =~= Seq::<char>::empty());
            assert(encode_utf16(seq![c].skip(1)) =~= Seq::<u16>::empty());
            assert(encode_utf16(seq![c]) =~= encode_scalar(c));
            assert(s@.take(it.index() + 1) =~= done + seq![c]);
            done = done + seq![c];
        }
        if v < 0x10000 {
            units.push(v as u16);
        } else {
            let w: u32 = v - 0x10000;
            units.push((0xD800 + w / 0x400) as u16);
            units.push((0xDC00 + w % 0x400) as u16);
        }
        assert(units@ =~= encode_utf16(done));
    }
    assert(done =~= s@);
    units.push(0u16);
    units
}

/// A leading (high) surrogate.
pub open spec fn is_high_surrogate(u: u16) -> bool {
    0xD800 <= u <= 0xDBFF
}

/// A trailing (low) surrogate.
pub open spec fn is_low_surrogate(u: u16) -> bool {
    0xDC00 <= u <= 0xDFFF
}

/// The code of the character that a surrogate pair stands for.
pub open spec fn pair_scalar(high: u16, low: u16) -> u32 {
    (0x10000 + (high - 0xD800) * 0x400 + (low - 0xDC00)) as u32
}

/// The text that a run of UTF-16 code units stands for. A surrogate that
/// has no partner becomes `REPLACEMENT`; nothing else is changed or dropped.
pub open spec fn decode_utf16_lossy(units: Seq<u16>) -> Seq<char>
    decreases units.len(),
{
    if units.len() == 0 {
        Seq::empty()
    } else if is_high_surrogate(units[0]) && units.len() >= 2 && is_low_surrogate(units[1]) {
        seq![pair_scalar(units[0], units[1]) as char] + decode_utf16_lossy(units.skip(2))
    } else if is_high_surrogate(units[0]) || is_low_surrogate(units[0]) {
        seq![REPLACEMENT] + decode_utf16_lossy(units.skip(1))
    } else {
        seq![units[0] as char] + decode_utf16_lossy(units.skip(1))
    }
}

/// What a native wide string decodes to. `None` stands for a null pointer.
/// The text ends before the first zero unit, which must come after at most
/// `MAX_WIDE_LEN` units.
pub open spec fn decode_wide(p: Option<Seq<u16>>) -> Result<Seq<char>, DecodeFailure> {
    match p {
        None => Err(DecodeFailure::Null),
        Some(units) => match units.index_of_first(0u16) {
            None => Err(DecodeFailure::Unterminated),
            Some(n) => if n <= MAX_WIDE_LEN {
                Ok(decode_utf16_lossy(units.take(n)))
            } else {
                Err(DecodeFailure::Unterminated)
            },
        },
    }
}

/// The code units behind a buffer that may be absent.
pub open spec fn units_of(p: Option<&[u16]>) -> Option<Seq<u16>> {
    match p {
        None => None,
        Some(units) => Some(units@),
    }
}

/// The character with the code `v`.
fn scalar_char(v: u32) -> (c: char)
    requires
        is_scalar(v),
    ensures
        c == v as char,
{
    char_from_u32(v).unwrap()
}

/// Decodes the first `n` code units of `units`.
fn decode_units(units: &[u16], n: usize) -> (text: String)
    requires
        n <= units@.len(),
    ensures
        text@ == decode_utf16_lossy(units@.take(n as int)),
{
    let ghost all = units@.take(n as int);
    let mut text = String::new();
    let mut i: usize = 0;
    assert(all.skip(0) =~= all);
    while i < n
        invariant
            i <= n <= units@.len(),
            all == units@.take(n as int),
            text@ + decode_utf16_lossy(all.skip(i as int)) == decode_utf16_lossy(all),
        decreases n - i,
    {
        let u: u16 = units[i];
        let ghost rest = all.skip(i as int);
        assert(rest[0] == u);
        let ghost before = text@;
        if 0xD800 <= u && u <= 0xDBFF && i + 1 < n && 0xDC00 <= units[i + 1] && units[i + 1]
            <= 0xDFFF {
            let low: u16 = units[i + 1];
            assert(rest[1] == low);
            let v: u32 = 0x10000 + (u as u32 - 0xD800) * 0x400 + (low as u32 - 0xDC00);
            push_char(&mut text, scalar_char(v));
            assert(rest.skip(2) =~= all.skip(i + 2));
            i = i + 2;
        } else if 0xD800 <= u && u <= 0xDFFF {
            push_char(&mut text, REPLACEMENT);
            assert(rest.skip(1) =~= all.skip(i + 1));
            i = i + 1;
        } else {
            push_char(&mut text, scalar_char(u as u32));
            assert(rest.skip(1) =~= all.skip(i + 1));
            i = i + 1;
        }
        assert(text@ + decode_utf16_lossy(all.skip(i as int)) =~= before + decode_utf16_lossy(
            rest,
        ));
    }
    assert(text@ + decode_utf16_lossy(all.skip(n as int)) =~= text@);
    text
}

/// Decodes a wide string that the native side returned. `None` stands for a
/// null pointer; a buffer is read up to its first zero unit. Fails where
/// there is no buffer, or no zero unit after at most `MAX_WIDE_LEN` units.
pub fn from_vec_u16(p: Option<&[u16]>) -> (r: Result<String, Error>)
    ensures
        match r {
            Ok(text) => decode_wide(units_of(p)) == Ok::<Seq<char>, DecodeFailure>(text@),
            Err(e) => decode_wide(units_of(p)) matches Err(f) && e@ == ErrorView::DecodeError(f),
        },
{
    match p {
        None => Err(Error::DecodeError(DecodeFailure::Null)),
        Some(units) => {
            let mut n: usize = 0;
            while n < units.len() && n <= MAX_WIDE_LEN && units[n] != 0
                invariant
                    n <= units@.len(),
                    n <= MAX_WIDE_LEN + 1,
                    forall|j: int| 0 <= j < n ==> units@[j] != 0,
                decreases units@.len() - n,
            {
                n = n + 1;
            }
            proof {
                units@.index_of_first_ensures(0u16);
            }
            if n < units.len() && n <= MAX_WIDE_LEN {
                Ok(decode_units(units, n))
            } else {
                Err(Error::DecodeError(DecodeFailure::Unterminated))
            }
        },
    }
}

/// The code units of a character are never surrogates without a partner,
/// so decoding them gives the character back.
pub proof fn lemma_decode_encode(text: Seq<char>)
    ensures
        decode_utf16_lossy(encode_utf16(text)) == text,
    decreases text.len(),
{
    if text.len() > 0 {
        let c = text[0];
        let v = c as u32;
        let rest = encode_utf16(text.skip(1));
        let units = encode_utf16(text);
        lemma_decode_encode(text.skip(1));
        vstd::utf8::char_is_scalar(c);
        vstd::utf8::char_u32_cast(c, v);
        if v < 0x10000 {
            assert(units.skip(1) =~= rest);
            assert(units[0] as char == c);
        } else {
            assert(units.skip(2) =~= rest);
            assert(pair_scalar(units[0], units[1]) == v);
        }
        assert(seq![c] + text.skip(1) =~= text);
    }
}

/// Two texts with the same wide string are the same text: no two names
/// reach the native side as one.
pub proof fn lemma_wide_is_injective(a: Seq<char>, b: Seq<char>)
    requires
        wide(a) == wide(b),
    ensures
        a == b,
{
    assert(wide(a).drop_last() =~= encode_utf16(a));
    assert(wide(b).drop_last() =~= encode_utf16(b));
    lemma_decode_encode(a);
    lemma_decode_encode(b);
}

/// A text without the character zero has no zero among its code units.
pub proof fn lemma_encode_no_zero(text: Seq<char>)
    requires
        !text.contains('\0'),
    ensures
        !encode_utf16(text).contains(0u16),
    decreases text.len(),
{
    if text.len() > 0 {
        assert(text.contains(text[0]));
        assert forall|c: char| text.skip(1).contains(c) implies text.contains(c) by {
            let j = choose|j: int| 0 <= j < text.skip(1).len() && text.skip(1)[j] == c;
            assert(text[j + 1] == c);
        }
        lemma_encode_no_zero(text.skip(1));
        let head = encode_scalar(text[0]);
        let rest = encode_utf16(text.skip(1));
        assert(text[0] as u32 != 0) by {
            vstd::utf8::char_u32_cast(text[0], text[0] as u32);
            vstd::utf8::char_u32_cast('\0', 0u32);
        }
        vstd::utf8::char_is_scalar(text[0]);
        assert forall|i: int| 0 <= i < (head + rest).len() implies (head + rest)[i] != 0 by {
            if i >= head.len() {
                assert(rest.contains(rest[i - head.len()]));
            } else {
                assert((head + rest)[i] == head[i]);
            }
        }
        assert(encode_utf16(text) == head + rest);
    }
}

/// Encoding a text and decoding the result gives the text back, where the
/// text holds no character zero (the wide string would end there) and is
/// not longer than a scan for the terminator goes.
pub proof fn lemma_wide_round_trip(text: Seq<char>)
    requires
        !text.contains('\0'),
        encode_utf16(text).len() <= MAX_WIDE_LEN,
    ensures
        decode_wide(Some(wide(text))) == Ok::<Seq<char>, DecodeFailure>(text),
{
    let units = encode_utf16(text);
    let buffer = wide(text);
    lemma_encode_no_zero(text);
    lemma_decode_encode(text);
    buffer.index_of_first_ensures(0u16);
    assert(buffer[units.len() as int] == 0);
    assert(buffer.contains(0u16));
    let n = buffer.index_of_first(0u16)->0;
    if n < units.len() {
        assert(units.contains(units[n]));
    }
    assert(buffer.take(units.len() as int) =~= units);
}

} // verus!
