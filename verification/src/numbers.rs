//! Decimal parsing and formatting for protocol field values: unsigned and
//! signed integers written as ASCII digit runs, and rendering an integer back
//! into its decimal digits for a command argument.

use vstd::prelude::*;
use crate::text::push_char;

verus! {

/// Whether the character is an ASCII decimal digit.
pub open spec fn is_dec_digit(c: char) -> bool {
    ('0' as u32) <= (c as u32) && (c as u32) <= ('9' as u32)
}

/// The numeric value of one decimal digit character.
pub open spec fn digit_val(c: char) -> nat {
    ((c as u32) - ('0' as u32)) as nat
}

/// Whether every character of the text is a decimal digit.
pub open spec fn all_dec_digits(s: Seq<char>) -> bool {
    forall|i: int| 0 <= i < s.len() ==> is_dec_digit(#[trigger] s[i])
}

/// The value of a run of decimal digits, most significant first.
pub open spec fn dec_val(s: Seq<char>) -> nat
    decreases s.len(),
{
    if s.len() == 0 {
        0
    } else {
        dec_val(s.drop_last()) * 10 + digit_val(s.last())
    }
}

/// A nonempty all-digit text whose value fits in a u64.
pub open spec fn valid_u64(s: Seq<char>) -> bool {
    s.len() > 0 && all_dec_digits(s) && dec_val(s) <= u64::MAX
}

/// Longer digit runs never have smaller values: the value of a prefix is a
/// lower bound for the value of the whole run.
proof fn lemma_dec_val_prefix_le(s: Seq<char>, j: int, k: int)
    requires
        0 <= j <= k <= s.len(),
    ensures
        dec_val(s.subrange(0, j)) <= dec_val(s.subrange(0, k)),
    decreases k - j,
{
    if j < k {
        lemma_dec_val_prefix_le(s, j, k - 1);
        assert(s.subrange(0, k).drop_last() =~= s.subrange(0, k - 1));
        assert(dec_val(s.subrange(0, k)) == dec_val(s.subrange(0, k - 1)) * 10 + digit_val(
            s.subrange(0, k).last(),
        ));
        assert(dec_val(s.subrange(0, k - 1)) * 10 >= dec_val(s.subrange(0, k - 1))) by (
        nonlinear_arith);
    }
}

/// Parses a nonempty run of decimal digits as a u64, rejecting any other
/// character and any value that overflows.
pub fn parse_u64(s: &str) -> (r: Option<u64>)
    ensures
        (r is Some) == valid_u64(s@),
        r matches Some(n) ==> n == dec_val(s@),
{
    let n = s.unicode_len();
    if n == 0 {
        return None;
    }
    let mut acc: u64 = 0;
    let mut i: usize = 0;
    while i < n
        invariant
            i <= n,
            n == s@.len(),
            n > 0,
            all_dec_digits(s@.subrange(0, i as int)),
            acc == dec_val(s@.subrange(0, i as int)),
        decreases n - i,
    {
        let c = s.get_char(i);
        let cu = c as u32;
        if cu < 48 || cu > 57 {
            assert(!is_dec_digit(s@[i as int]));
            return None;
        }
        let d = (cu - 48) as u64;
        if acc > (u64::MAX - d) / 10 {
            proof {
                assert(s@.subrange(0, i as int + 1).drop_last() =~= s@.subrange(0, i as int));
                assert(dec_val(s@.subrange(0, i as int + 1)) == acc * 10 + d);
                assert(acc * 10 > u64::MAX - d) by (nonlinear_arith)
                    requires
                        acc > (u64::MAX - d) / 10,
                        d <= 9,
                ;
                lemma_dec_val_prefix_le(s@, i as int + 1, n as int);
                assert(s@.subrange(0, n as int) =~= s@);
            }
            return None;
        }
        proof {
            assert(acc * 10 <= u64::MAX - d) by (nonlinear_arith)
                requires
                    acc <= (u64::MAX - d) / 10,
                    d <= 9,
            ;
            assert(s@.subrange(0, i as int + 1).drop_last() =~= s@.subrange(0, i as int));
        }
        acc = acc * 10 + d;
        i += 1;
    }
    proof {
        assert(s@.subrange(0, n as int) =~= s@);
    }
    Some(acc)
}

/// A nonempty all-digit text whose value fits in a u32.
pub open spec fn valid_u32(s: Seq<char>) -> bool {
    s.len() > 0 && all_dec_digits(s) && dec_val(s) <= u32::MAX
}

/// Parses a run of decimal digits as a u32.
pub fn parse_u32(s: &str) -> (r: Option<u32>)
    ensures
        (r is Some) == valid_u32(s@),
        r matches Some(n) ==> n == dec_val(s@),
{
    match parse_u64(s) {
        None => None,
        Some(v) => if v <= u32::MAX as u64 {
            Some(v as u32)
        } else {
            None
        },
    }
}

/// A nonempty all-digit text whose value fits in a u16.
pub open spec fn valid_u16(s: Seq<char>) -> bool {
    s.len() > 0 && all_dec_digits(s) && dec_val(s) <= u16::MAX
}

/// Parses a run of decimal digits as a u16.
pub fn parse_u16(s: &str) -> (r: Option<u16>)
    ensures
        (r is Some) == valid_u16(s@),
        r matches Some(n) ==> n == dec_val(s@),
{
    match parse_u64(s) {
        None => None,
        Some(v) => if v <= u16::MAX as u64 {
            Some(v as u16)
        } else {
            None
        },
    }
}

/// A nonempty all-digit text whose value fits in a u8.
pub open spec fn valid_u8(s: Seq<char>) -> bool {
    s.len() > 0 && all_dec_digits(s) && dec_val(s) <= u8::MAX
}

/// Parses a run of decimal digits as a u8.
pub fn parse_u8(s: &str) -> (r: Option<u8>)
    ensures
        (r is Some) == valid_u8(s@),
        r matches Some(n) ==> n == dec_val(s@),
{
    match parse_u64(s) {
        None => None,
        Some(v) => if v <= u8::MAX as u64 {
            Some(v as u8)
        } else {
            None
        },
    }
}

/// Whether the text begins with a minus sign.
pub open spec fn neg_prefixed(s: Seq<char>) -> bool {
    s.len() > 0 && s[0] == '-'
}

/// The signed value of a decimal text with an optional leading minus sign.
pub open spec fn int_val(s: Seq<char>) -> int {
    if neg_prefixed(s) {
        -(dec_val(s.drop_first()) as int)
    } else {
        dec_val(s) as int
    }
}

/// A decimal text, optionally minus-signed, whose value fits in an i32.
pub open spec fn valid_i32(s: Seq<char>) -> bool {
    if neg_prefixed(s) {
        s.len() > 1 && all_dec_digits(s.drop_first()) && dec_val(s.drop_first()) <= 0x8000_0000
    } else {
        s.len() > 0 && all_dec_digits(s) && dec_val(s) <= i32::MAX
    }
}

/// Parses an optionally minus-signed run of decimal digits as an i32.
pub fn parse_i32(s: &str) -> (r: Option<i32>)
    ensures
        (r is Some) == valid_i32(s@),
        r matches Some(n) ==> n as int == int_val(s@),
{
    let n = s.unicode_len();
    if n > 0 && s.get_char(0) == '-' {
        let rest = s.substring_char(1, n);
        proof {
            assert(rest@ =~= s@.drop_first());
        }
        match parse_u64(rest) {
            None => None,
            Some(v) => if v <= 0x8000_0000 {
                if v == 0x8000_0000 {
                    Some(i32::MIN)
                } else {
                    Some(-(v as i32))
                }
            } else {
                None
            },
        }
    } else {
        match parse_u64(s) {
            None => None,
            Some(v) => if v <= i32::MAX as u64 {
                Some(v as i32)
            } else {
                None
            },
        }
    }
}

/// The decimal digit characters of a number, most significant first.
pub open spec fn dec_str(n: nat) -> Seq<char>
    decreases n,
{
    if n < 10 {
        seq![dec_digit_char(n)]
    } else {
        dec_str(n / 10).push(dec_digit_char(n % 10))
    }
}

/// The digit character for one decimal digit value.
pub open spec fn dec_digit_char(d: nat) -> char {
    if d == 0 {
        '0'
    } else if d == 1 {
        '1'
    } else if d == 2 {
        '2'
    } else if d == 3 {
        '3'
    } else if d == 4 {
        '4'
    } else if d == 5 {
        '5'
    } else if d == 6 {
        '6'
    } else if d == 7 {
        '7'
    } else if d == 8 {
        '8'
    } else {
        '9'
    }
}

fn push_digit(out: &mut String, d: u32)
    requires
        d < 10,
    ensures
        final(out)@ == old(out)@.push(dec_digit_char(d as nat)),
{
    let c: char = match d {
        0 => '0',
        1 => '1',
        2 => '2',
        3 => '3',
        4 => '4',
        5 => '5',
        6 => '6',
        7 => '7',
        8 => '8',
        _ => '9',
    };
    push_char(out, c);
}

/// Appends the decimal rendering of `n` to `out`.
pub fn append_dec_u32(out: &mut String, n: u32)
    ensures
        final(out)@ == old(out)@ + dec_str(n as nat),
    decreases n,
{
    if n >= 10 {
        append_dec_u32(out, n / 10);
        push_digit(out, n % 10);
        proof {
            assert(final(out)@ =~= old(out)@ + dec_str(n as nat));
        }
    } else {
        push_digit(out, n);
        proof {
            assert(final(out)@ =~= old(out)@ + dec_str(n as nat));
        }
    }
}

/// Renders a number as its decimal digits.
pub fn u32_to_dec(n: u32) -> (r: String)
    ensures
        r@ == dec_str(n as nat),
{
    let mut out = String::new();
    append_dec_u32(&mut out, n);
    proof {
        assert(Seq::<char>::empty() + dec_str(n as nat) =~= dec_str(n as nat));
    }
    out
}

} // verus!
