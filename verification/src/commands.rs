//! What the command line hands to the binding layer: the checks on its
//! arguments, their values, and the checks on a name before an operation.

use vstd::prelude::*;
use vstd::string::{StrSliceExecFns, StringExecFns};
use crate::error::{Error, ErrorView};
use crate::flags::DistroFlags;
use crate::render::{decimal, digit_char, digits, lemma_quotient_smaller};

verus! {

/// Whether `c` is one of the digits `0` to `9`.
pub open spec fn is_digit(c: char) -> bool {
    48 <= c as u32 <= 57
}

/// The number that a run of decimal digits stands for.
pub open spec fn decimal_value(text: Seq<char>) -> nat
    decreases text.len(),
{
    if text.len() == 0 {
        0
    } else {
        decimal_value(text.drop_last()) * 10 + (text.last() as u32 - 48) as nat
    }
}

/// A number's text without the plus sign that may stand in front of it.
pub open spec fn unsigned_body(text: Seq<char>) -> Seq<char> {
    if text.len() > 0 && text[0] == '+' {
        text.skip(1)
    } else {
        text
    }
}

/// The 64-bit unsigned number that a text stands for: decimal digits, one
/// at least, after at most one plus sign, and a value that fits. Nothing
/// for any other text.
pub open spec fn u64_of_text(text: Seq<char>) -> Option<u64> {
    let body = unsigned_body(text);
    if body.len() > 0 && (forall|i: int| 0 <= i < body.len() ==> is_digit(#[trigger] body[i]))
        && decimal_value(body) <= u64::MAX {
        Some(decimal_value(body) as u64)
    } else {
        None
    }
}

/// The user ID that a text stands for: a number that fits in 32 bits.
pub open spec fn uid_of_text(text: Seq<char>) -> Option<u32> {
    match u64_of_text(text) {
        Some(value) => if value <= u32::MAX {
            Some(value as u32)
        } else {
            None
        },
        None => None,
    }
}

/// Whether a text is three binary digits.
pub open spec fn is_flags_text(text: Seq<char>) -> bool {
    text.len() == 3 && forall|i: int|
        0 <= i < 3 ==> (#[trigger] text[i]) == '0' || text[i] == '1'
}

/// The flags that three binary digits stand for: the last digit is the
/// lowest bit. Nothing for any other text.
pub open spec fn flags_of_text(text: Seq<char>) -> Option<DistroFlags> {
    if is_flags_text(text) {
        Some(
            DistroFlags {
                interop: text[2] == '1',
                append_nt_path: text[1] == '1',
                drive_mounting: text[0] == '1',
            },
        )
    } else {
        None
    }
}

/// Three binary digits are the word of the flags that they stand for,
/// written in binary with three digits.
pub proof fn lemma_flags_text_is_binary(text: Seq<char>)
    requires
        is_flags_text(text),
    ensures
        digits(flags_of_text(text)->0.mask() as nat, 2, 3) == text,
{
    reveal_with_fuel(digits, 4);
    let written = digits(flags_of_text(text)->0.mask() as nat, 2, 3);
    assert(text[0] == '0' || text[0] == '1');
    assert(text[1] == '0' || text[1] == '1');
    assert(text[2] == '0' || text[2] == '1');
    assert(written =~= text);
}

/// A number written in decimal is a run of digits that stands for the
/// number.
pub proof fn lemma_decimal_is_read_back(n: nat)
    ensures
        decimal(n).len() > 0,
        forall|i: int| 0 <= i < decimal(n).len() ==> is_digit(#[trigger] decimal(n)[i]),
        decimal_value(decimal(n)) == n,
    decreases n,
{
    if n < 10 {
        assert(decimal(n) =~= seq![digit_char(n)]);
        assert(decimal(n).drop_last() =~= Seq::<char>::empty());
        assert(decimal_value(decimal(n).drop_last()) == 0);
    } else {
        lemma_quotient_smaller(n, 10);
        lemma_decimal_is_read_back(n / 10);
        let head = decimal(n / 10);
        assert(digits(n / 10, 10, 0) == digits(n / 10, 10, 1));
        assert(decimal(n) =~= head.push(digit_char(n % 10)));
        assert(decimal(n).drop_last() =~= head);
        assert forall|i: int| 0 <= i < decimal(n).len() implies is_digit(
            #[trigger] decimal(n)[i],
        ) by {
            if i < head.len() {
                assert(decimal(n)[i] == head[i]);
            }
        }
    }
}

/// What is written for a 64-bit unsigned number is read back as that
/// number.
pub proof fn lemma_written_number_is_parsed(n: u64)
    ensures
        u64_of_text(decimal(n as nat)) == Some(n),
{
    lemma_decimal_is_read_back(n as nat);
    let text = decimal(n as nat);
    assert(is_digit(text[0]));
    assert(unsigned_body(text) == text);
}

/// A longer run of digits does not stand for a smaller number.
proof fn lemma_decimal_value_grows(text: Seq<char>, k: int)
    requires
        0 <= k <= text.len(),
    ensures
        decimal_value(text.take(k)) <= decimal_value(text),
    decreases text.len() - k,
{
    if k == text.len() {
        assert(text.take(k) =~= text);
    } else {
        lemma_decimal_value_grows(text.drop_last(), k);
        assert(text.drop_last().take(k) =~= text.take(k));
    }
}

/// The 64-bit unsigned number that `s` stands for.
pub fn parse_u64(s: &str) -> (value: Option<u64>)
    ensures
        value == u64_of_text(s@),
{
    let mut acc: u64 = 0;
    let mut signed = false;
    let mut any = false;
    let mut first = true;
    for c in it: s.chars()
        invariant
            it.seq() == s@,
            first == (it.index() == 0),
            signed ==> it.index() >= 1 && s@[0] == '+',
            !signed && it.index() >= 1 ==> s@[0] != '+',
            any == (it.index() > (if signed { 1int } else { 0 })),
            any ==> acc == decimal_value(s@.subrange(if signed { 1int } else { 0 }, it.index())),
            !any ==> acc == 0,
            forall|i: int|
                (if signed { 1int } else { 0 }) <= i < it.index() ==> is_digit(#[trigger] s@[i]),
    {
        let ghost index = it.index();
        assert(c == s@[index]);
        if first && c == '+' {
            signed = true;
            first = false;
        } else {
            first = false;
            let ghost start = if signed { 1int } else { 0 };
            let ghost body = unsigned_body(s@);
            assert(body =~= s@.skip(start));
            let v: u32 = c as u32;
            if v < 48 || v > 57 {
                assert(!is_digit(body[index - start]));
                return None;
            }
            let d: u64 = (v - 48) as u64;
            let ghost before = s@.subrange(start, index);
            let ghost after = s@.subrange(start, index + 1);
            assert(after.drop_last() =~= before);
            assert(after.last() == c);
            assert(decimal_value(before) == acc) by {
                if !any {
                    assert(before =~= Seq::empty());
                }
            }
            if acc > (u64::MAX - d) / 10 {
                proof {
                    assert(decimal_value(after) > u64::MAX);
                    assert(body.take(index + 1 - start) =~= after);
                    lemma_decimal_value_grows(body, index + 1 - start);
                }
                return None;
            }
            acc = acc * 10 + d;
            any = true;
        }
    }
    proof {
        let start = if signed { 1int } else { 0 };
        assert(unsigned_body(s@) =~= s@.subrange(start, s@.len() as int));
    }
    if any {
        Some(acc)
    } else {
        None
    }
}

/// Accepts the text of a 64-bit unsigned number for the default user, and
/// says what is expected of any other.
pub fn default_uid_validator(s: String) -> (r: Result<(), String>)
    ensures
        r is Ok <==> u64_of_text(s@) is Some,
        r matches Err(message) ==> message@ == "A 64-bit unsigned integer is expected"@,
{
    match parse_u64(s.as_str()) {
        Some(_) => Ok(()),
        None => Err(String::from_str("A 64-bit unsigned integer is expected")),
    }
}

/// Accepts three binary digits for the flags, and says what is expected of
/// any other text.
pub fn flags_validator(s: String) -> (r: Result<(), String>)
    ensures
        r is Ok <==> is_flags_text(s@),
        r matches Err(message) ==> message@ == "3 binary digits are expected"@,
{
    match parse_flags(s.as_str()) {
        Some(_) => Ok(()),
        None => Err(String::from_str("3 binary digits are expected")),
    }
}

/// The default user that `s` stands for.
pub fn parse_default_uid(s: &str) -> (uid: Option<u32>)
    ensures
        uid == uid_of_text(s@),
{
    match parse_u64(s) {
        Some(value) => if value <= 0xFFFF_FFFF {
            Some(value as u32)
        } else {
            None
        },
        None => None,
    }
}

/// The flags that `s` stands for.
pub fn parse_flags(s: &str) -> (flags: Option<DistroFlags>)
    ensures
        flags == flags_of_text(s@),
{
    if s.unicode_len() != 3 {
        return None;
    }
    let high = s.get_char(0);
    let middle = s.get_char(1);
    let low = s.get_char(2);
    if (high == '0' || high == '1') && (middle == '0' || middle == '1') && (low == '0' || low
        == '1') {
        Some(
            DistroFlags {
                interop: low == '1',
                append_nt_path: middle == '1',
                drive_mounting: high == '1',
            },
        )
    } else {
        None
    }
}

/// Lets an operation go on that needs `distro_name` registered.
pub fn require_registered(distro_name: &str, registered: bool) -> (r: Result<(), Error>)
    ensures
        r is Ok <==> registered,
        r matches Err(e) ==> e@ == (ErrorView::NotRegistered { name: distro_name@ }),
{
    if registered {
        Ok(())
    } else {
        Err(Error::NotRegistered { name: String::from_str(distro_name) })
    }
}

/// Lets an operation go on that needs `distro_name` not yet registered.
pub fn require_unregistered(distro_name: &str, registered: bool) -> (r: Result<(), Error>)
    ensures
        r is Ok <==> !registered,
        r matches Err(e) ==> e@ == (ErrorView::AlreadyRegistered { name: distro_name@ }),
{
    if registered {
        Err(Error::AlreadyRegistered { name: String::from_str(distro_name) })
    } else {
        Ok(())
    }
}

} // verus!
