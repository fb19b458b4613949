//! Numbers and lists written out as text.

use vstd::prelude::*;
use vstd::string::StringExecFns;
use crate::strings::push_char;

verus! {

/// The character for one digit below sixteen, letters in upper case.
pub open spec fn digit_char(d: nat) -> char {
    seq!['0', '1', '2', '3', '4', '5', '6', '7', '8', '9', 'A', 'B', 'C', 'D', 'E', 'F'][d as int]
}

/// The digits of `n` in the given radix, most significant first, with
/// zeros in front where there would be fewer than `width` of them. Zero is
/// written with one digit at least.
pub open spec fn digits(n: nat, radix: nat, width: nat) -> Seq<char>
    recommends
        2 <= radix <= 16,
    decreases n, width,
{
    if radix < 2 || (n < radix && width <= 1) {
        seq![digit_char(n)]
    } else {
        proof {
            lemma_quotient_smaller(n, radix);
        }
        let narrower = if width > 0 {
            (width - 1) as nat
        } else {
            0
        };
        digits(n / radix, radix, narrower).push(digit_char(n % radix))
    }
}

/// Dividing by a radix makes a positive number smaller.
pub proof fn lemma_quotient_smaller(n: nat, radix: nat)
    requires
        radix >= 2,
    ensures
        n / radix <= n,
        n > 0 ==> n / radix < n,
{
    assert(n / radix <= n && (n > 0 ==> n / radix < n)) by (nonlinear_arith)
        requires
            radix >= 2,
            n >= 0,
    ;
}

/// `n` in decimal.
pub open spec fn decimal(n: nat) -> Seq<char> {
    digits(n, 10, 1)
}

/// `n` in binary.
pub open spec fn binary(n: nat) -> Seq<char> {
    digits(n, 2, 1)
}

/// `n` in hexadecimal with upper-case letters, six digits at least.
pub open spec fn hex6(n: nat) -> Seq<char> {
    digits(n, 16, 6)
}

/// The items one after another, with `separator` between neighbours.
pub open spec fn joined(items: Seq<Seq<char>>, separator: Seq<char>) -> Seq<char>
    decreases items.len(),
{
    if items.len() == 0 {
        Seq::empty()
    } else if items.len() == 1 {
        items[0]
    } else {
        joined(items.drop_last(), separator) + separator + items.last()
    }
}

/// The texts of a sequence of strings.
pub open spec fn texts(items: Seq<String>) -> Seq<Seq<char>> {
    items.map_values(|item: String| item@)
}

/// The unsigned word with the same 32 bits as `code`.
pub open spec fn unsigned_bits(code: i32) -> u32 {
    if code >= 0 {
        code as u32
    } else {
        (code + 0x1_0000_0000) as u32
    }
}

/// The unsigned word with the same 32 bits as `code`.
pub fn to_unsigned_bits(code: i32) -> (bits: u32)
    ensures
        bits == unsigned_bits(code),
{
    if code >= 0 {
        code as u32
    } else {
        (code - i32::MIN) as u32 + 0x8000_0000
    }
}

/// The character for one digit below sixteen.
fn digit(d: u32) -> (c: char)
    requires
        d < 16,
    ensures
        c == digit_char(d as nat),
{
    if d == 0 {
        '0'
    } else if d == 1 {
        '1'
    } else if d == 2 {
        '2'
    } else if d == 3 {
        '3'
    } else if d == 4 {
        '4'
    } else if d == 5 {
        '5'
    } else if d == 6 {
        '6'
    } else if d == 7 {
        '7'
    } else if d == 8 {
        '8'
    } else if d == 9 {
        '9'
    } else if d == 10 {
        'A'
    } else if d == 11 {
        'B'
    } else if d == 12 {
        'C'
    } else if d == 13 {
        'D'
    } else if d == 14 {
        'E'
    } else {
        'F'
    }
}

/// Appends the digits of `n` in the given radix, `width` of them at least.
fn push_digits(text: &mut String, n: u32, radix: u32, width: u32)
    requires
        2 <= radix <= 16,
    ensures
        final(text)@ == old(text)@ + digits(n as nat, radix as nat, width as nat),
    decreases n, width,
{
    if n >= radix || width > 1 {
        let narrower: u32 = if width > 0 {
            width - 1
        } else {
            0
        };
        proof {
            lemma_quotient_smaller(n as nat, radix as nat);
        }
        push_digits(text, n / radix, radix, narrower);
    }
    push_char(text, digit(n % radix));
    if n < radix {
        assert(n % radix == n) by (nonlinear_arith)
            requires
                0 <= n < radix,
        ;
    }
    assert(text@ =~= old(text)@ + digits(n as nat, radix as nat, width as nat));
}

/// Appends `n` in decimal.
pub fn push_decimal(text: &mut String, n: u32)
    ensures
        final(text)@ == old(text)@ + decimal(n as nat),
{
    push_digits(text, n, 10, 1)
}

/// Appends `n` in binary.
pub fn push_binary(text: &mut String, n: u32)
    ensures
        final(text)@ == old(text)@ + binary(n as nat),
{
    push_digits(text, n, 2, 1)
}

/// Appends `n` in hexadecimal with upper-case letters, six digits at least.
pub fn push_hex6(text: &mut String, n: u32)
    ensures
        final(text)@ == old(text)@ + hex6(n as nat),
{
    push_digits(text, n, 16, 6)
}

/// Joins the items with `separator` between neighbours.
pub fn join(items: &Vec<String>, separator: &str) -> (text: String)
    ensures
        text@ == joined(texts(items@), separator@),
{
    let mut text = String::new();
    let mut i: usize = 0;
    while i < items.len()
        invariant
            i <= items@.len(),
            text@ == joined(texts(items@).take(i as int), separator@),
        decreases items@.len() - i,
    {
        let ghost before = texts(items@).take(i as int);
        let ghost after = texts(items@).take(i + 1);
        assert(after.drop_last() =~= before);
        assert(after.last() == items@[i as int]@);
        if i > 0 {
            text.append(separator);
        }
        text.append(items[i].as_str());
        assert(text@ =~= joined(after, separator@));
        i = i + 1;
    }
    assert(texts(items@).take(i as int) =~= texts(items@));
    text
}

} // verus!
