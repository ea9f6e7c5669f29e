//! Fixed-point time and decimal values. The protocol writes durations as
//! seconds with an optional fractional part (`"149.029"`); the decoder keeps
//! them exact as whole seconds plus nanoseconds rather than rounding through
//! a binary floating-point type.

use vstd::prelude::*;
use crate::numbers::{all_dec_digits, dec_val, digit_val, is_dec_digit, valid_u64};

verus! {

/// A span of time: whole seconds and a nanosecond remainder.
#[derive(Clone, Copy, PartialEq, Eq, Structural, Debug)]
pub struct Duration {
    pub secs: u64,
    pub nanos: u32,
}

impl Duration {
    /// Whether the nanosecond part is a proper remainder.
    pub open spec fn wf(self) -> bool {
        self.nanos < 1_000_000_000
    }

    /// The zero-length span.
    pub fn zero() -> (r: Duration)
        ensures
            r.secs == 0 && r.nanos == 0,
            r.wf(),
    {
        Duration { secs: 0, nanos: 0 }
    }
}

impl Default for Duration {
    fn default() -> (r: Duration)
        ensures
            r.secs == 0 && r.nanos == 0,
    {
        Duration { secs: 0, nanos: 0 }
    }
}

/// A signed decimal value kept exact: a sign, a whole part, and a fractional
/// part in nanounits. Carries fields such as a mixing ramp level in decibels.
#[derive(Clone, Copy, PartialEq, Eq, Structural, Debug)]
pub struct Decimal {
    pub negative: bool,
    pub whole: u64,
    pub nanos: u32,
}

impl Decimal {
    /// Whether the nanounit part is a proper remainder.
    pub open spec fn wf(self) -> bool {
        self.nanos < 1_000_000_000
    }
}

impl Default for Decimal {
    fn default() -> (r: Decimal)
        ensures
            r.negative == false && r.whole == 0 && r.nanos == 0,
    {
        Decimal { negative: false, whole: 0, nanos: 0 }
    }
}

/// Ten to the given power.
pub open spec fn pow10(n: nat) -> nat
    decreases n,
{
    if n == 0 {
        1
    } else {
        10 * pow10((n - 1) as nat)
    }
}

/// The nanounit value of a fractional-part digit run: the first nine digits,
/// right-padded with zeros to nine places; further digits are beyond
/// nanosecond precision and are dropped.
pub open spec fn frac_nanos(f: Seq<char>) -> nat {
    if f.len() >= 9 {
        dec_val(f.subrange(0, 9))
    } else {
        dec_val(f) * pow10((9 - f.len()) as nat)
    }
}

/// The position of the first `.` in the text, or the text's length.
pub open spec fn dot_from(s: Seq<char>, i: nat) -> nat
    decreases s.len() - i,
{
    if i >= s.len() {
        i
    } else if s[i as int] == '.' {
        i
    } else {
        dot_from(s, i + 1)
    }
}

/// The whole part of a decimal token: the digits before the first `.`.
pub open spec fn whole_part(s: Seq<char>) -> Seq<char> {
    s.subrange(0, dot_from(s, 0) as int)
}

/// The fractional part of a decimal token: the digits after the first `.`,
/// empty when there is no `.`.
pub open spec fn frac_part(s: Seq<char>) -> Seq<char> {
    if dot_from(s, 0) < s.len() {
        s.subrange(dot_from(s, 0) as int + 1, s.len() as int)
    } else {
        Seq::empty()
    }
}

/// A well-formed unsigned decimal token: digits, at most one `.`, at least
/// one digit somewhere, and a whole part that fits in a u64.
pub open spec fn valid_decimal(s: Seq<char>) -> bool {
    &&& all_dec_digits(whole_part(s))
    &&& all_dec_digits(frac_part(s))
    &&& whole_part(s).len() + frac_part(s).len() > 0
    &&& dec_val(whole_part(s)) <= u64::MAX
}

/// A well-formed decimal token with an optional leading minus sign.
pub open spec fn valid_signed_decimal(s: Seq<char>) -> bool {
    if s.len() > 0 && s[0] == '-' {
        valid_decimal(s.drop_first())
    } else {
        valid_decimal(s)
    }
}

/// The value of an all-digit run is below ten to its length.
proof fn lemma_dec_val_bound(s: Seq<char>)
    requires
        all_dec_digits(s),
    ensures
        dec_val(s) < pow10(s.len()),
    decreases s.len(),
{
    if s.len() > 0 {
        assert(all_dec_digits(s.drop_last())) by {
            assert(forall|i: int|
                0 <= i < s.len() - 1 ==> s.drop_last()[i] == #[trigger] s[i]);
        }
        lemma_dec_val_bound(s.drop_last());
        assert(is_dec_digit(s[s.len() - 1]));
        assert(digit_val(s.last()) <= 9);
        assert(dec_val(s.drop_last()) * 10 <= (pow10((s.len() - 1) as nat) - 1) * 10);
        assert(pow10(s.len()) == 10 * pow10((s.len() - 1) as nat));
    }
}

/// Powers of ten multiply by adding exponents.
proof fn lemma_pow10_mul(a: nat, b: nat)
    ensures
        pow10(a) * pow10(b) == pow10(a + b),
    decreases a,
{
    if a == 0 {
        assert(pow10(0) == 1);
        assert(1 * pow10(b) == pow10(b)) by (nonlinear_arith);
    } else {
        lemma_pow10_mul((a - 1) as nat, b);
        assert(pow10(a) * pow10(b) == 10 * pow10((a - 1) as nat) * pow10(b));
        assert(10 * pow10((a - 1) as nat) * pow10(b) == 10 * (pow10((a - 1) as nat) * pow10(b)))
            by (nonlinear_arith);
        assert(pow10((a - 1) as nat + b) == pow10((a + b - 1) as nat));
    }
}

/// The nanounit remainder of a valid fractional part is below one billion.
proof fn lemma_frac_nanos_bound(f: Seq<char>)
    requires
        all_dec_digits(f),
    ensures
        frac_nanos(f) < 1_000_000_000,
{
    reveal_with_fuel(pow10, 11);
    if f.len() >= 9 {
        let p = f.subrange(0, 9);
        assert(all_dec_digits(p)) by {
            assert(forall|i: int| 0 <= i < 9 ==> p[i] == #[trigger] f[i]);
        }
        lemma_dec_val_bound(p);
    } else {
        lemma_dec_val_bound(f);
        lemma_pow10_mul(f.len(), (9 - f.len()) as nat);
        assert(dec_val(f) * pow10((9 - f.len()) as nat) < pow10(f.len()) * pow10(
            (9 - f.len()) as nat,
        )) by (nonlinear_arith)
            requires
                dec_val(f) < pow10(f.len()),
                pow10((9 - f.len()) as nat) > 0,
        ;
        assert(pow10((9 - f.len()) as nat) > 0) by {
            lemma_pow10_pos((9 - f.len()) as nat);
        }
    }
}

proof fn lemma_pow10_pos(n: nat)
    ensures
        pow10(n) > 0,
    decreases n,
{
    if n > 0 {
        lemma_pow10_pos((n - 1) as nat);
    }
}

fn pow10_u32(e: usize) -> (r: u32)
    requires
        e <= 9,
    ensures
        r == pow10(e as nat),
{
    proof {
        reveal_with_fuel(pow10, 11);
    }
    match e {
        0 => 1,
        1 => 10,
        2 => 100,
        3 => 1_000,
        4 => 10_000,
        5 => 100_000,
        6 => 1_000_000,
        7 => 10_000_000,
        8 => 100_000_000,
        _ => 1_000_000_000,
    }
}

/// Whether every character of the given range is a decimal digit.
fn check_digits(s: &str, from: usize, to: usize) -> (r: bool)
    requires
        from <= to <= s@.len(),
    ensures
        r == all_dec_digits(s@.subrange(from as int, to as int)),
{
    let mut i: usize = from;
    while i < to
        invariant
            from <= i <= to <= s@.len(),
            forall|j: int| from <= j < i ==> is_dec_digit(#[trigger] s@[j]),
        decreases to - i,
    {
        let c = s.get_char(i);
        let cu = c as u32;
        if cu < 48 || cu > 57 {
            assert(!is_dec_digit(s@.subrange(from as int, to as int)[i - from]));
            return false;
        }
        i += 1;
    }
    proof {
        assert(forall|j: int|
            0 <= j < to - from ==> is_dec_digit(
                #[trigger] s@.subrange(from as int, to as int)[j],
            ));
    }
    true
}

/// Parses an unsigned decimal token into whole seconds-units and nanounits.
fn parse_unsigned_decimal(s: &str) -> (r: Option<(u64, u32)>)
    ensures
        (r is Some) == valid_decimal(s@),
        r matches Some(p) ==> p.0 == dec_val(whole_part(s@)),
        r matches Some(p) ==> p.1 == frac_nanos(frac_part(s@)),
        r matches Some(p) ==> p.1 < 1_000_000_000,
{
    let n = s.unicode_len();
    let mut d: usize = 0;
    loop
        invariant
            d <= n,
            n == s@.len(),
            dot_from(s@, 0) == dot_from(s@, d as nat),
        ensures
            d <= n,
            n == s@.len(),
            dot_from(s@, 0) == d as nat,
        decreases n - d,
    {
        if d >= n {
            break;
        }
        if s.get_char(d) == '.' {
            break;
        }
        proof {
            assert(dot_from(s@, d as nat) == dot_from(s@, (d + 1) as nat));
        }
        d += 1;
    }
    let whole = s.substring_char(0, d);
    proof {
        assert(whole@ =~= whole_part(s@));
    }
    let fstart = if d < n {
        d + 1
    } else {
        n
    };
    proof {
        if d < n {
            assert(s@.subrange(d + 1, n as int) =~= frac_part(s@));
        } else {
            assert(frac_part(s@) =~= Seq::<char>::empty());
        }
    }
    let flen: usize = n - fstart;
    if d == 0 && flen == 0 {
        return None;
    }
    let secs: u64 = if d > 0 {
        match crate::numbers::parse_u64(whole) {
            None => {
                return None;
            },
            Some(v) => v,
        }
    } else {
        0
    };
    if !check_digits(s, fstart, n) {
        proof {
            if d < n {
                assert(s@.subrange(fstart as int, n as int) =~= frac_part(s@));
            }
        }
        return None;
    }
    proof {
        if d < n {
            assert(s@.subrange(fstart as int, n as int) =~= frac_part(s@));
        }
    }
    let frac = s.substring_char(fstart, n);
    proof {
        if d < n {
            assert(frac@ =~= frac_part(s@));
        } else {
            assert(frac@ =~= frac_part(s@));
        }
    }
    let nanos = frac_to_nanos(frac);
    Some((secs, nanos))
}

/// Converts a fractional-part digit run to nanounits.
fn frac_to_nanos(f: &str) -> (r: u32)
    requires
        all_dec_digits(f@),
    ensures
        r == frac_nanos(f@),
        r < 1_000_000_000,
{
    let flen = f.unicode_len();
    proof {
        lemma_frac_nanos_bound(f@);
        reveal_with_fuel(pow10, 11);
    }
    if flen == 0 {
        proof {
            assert(dec_val(f@) == 0);
            assert(frac_nanos(f@) == 0 * pow10(9));
        }
        return 0;
    }
    let take: usize = if flen > 9 {
        9
    } else {
        flen
    };
    let fprefix = f.substring_char(0, take);
    proof {
        assert(fprefix@ =~= f@.subrange(0, take as int));
        assert(all_dec_digits(fprefix@)) by {
            assert(forall|i: int| 0 <= i < take ==> fprefix@[i] == #[trigger] f@[i]);
        }
        lemma_dec_val_bound(fprefix@);
        if flen < 9 {
            lemma_pow10_mul(flen as nat, (9 - flen) as nat);
            lemma_pow10_pos((9 - flen) as nat);
        }
    }
    let fv = match crate::numbers::parse_u64(fprefix) {
        None => {
            proof {
                assert(valid_u64(fprefix@)) by {
                    reveal_with_fuel(pow10, 11);
                    assert(dec_val(fprefix@) < pow10(take as nat));
                    lemma_pow10_mul(take as nat, (9 - take) as nat);
                    lemma_pow10_pos((9 - take) as nat);
                    assert(pow10(take as nat) * pow10((9 - take) as nat) == pow10(9));
                    assert(pow10(take as nat) <= pow10(9)) by (nonlinear_arith)
                        requires
                            pow10(take as nat) * pow10((9 - take) as nat) == pow10(9),
                            pow10((9 - take) as nat) >= 1,
                            pow10(take as nat) >= 0,
                    ;
                }
                assert(false);
            }
            0
        },
        Some(v) => v,
    };
    if flen >= 9 {
        proof {
            assert(fprefix@ =~= f@.subrange(0, 9));
        }
        fv as u32
    } else {
        proof {
            assert(fprefix@ =~= f@);
            assert(frac_nanos(f@) == dec_val(f@) * pow10((9 - flen) as nat));
            assert(fv * pow10((9 - flen) as nat) < 1_000_000_000);
        }
        (fv as u32) * pow10_u32(9 - flen)
    }
}

/// Parses a duration token: seconds with an optional fractional part, as in
/// `"149.029"`. Exact to nanosecond precision; further digits are dropped.
pub fn parse_duration(s: &str) -> (r: Option<Duration>)
    ensures
        (r is Some) == valid_decimal(s@),
        r matches Some(d) ==> d.secs == dec_val(whole_part(s@)) && d.nanos == frac_nanos(
            frac_part(s@),
        ) && d.wf(),
{
    match parse_unsigned_decimal(s) {
        None => None,
        Some(p) => Some(Duration { secs: p.0, nanos: p.1 }),
    }
}

/// Parses a signed decimal token such as `"-0.500000"`.
pub fn parse_decimal(s: &str) -> (r: Option<Decimal>)
    ensures
        (r is Some) == valid_signed_decimal(s@),
        r matches Some(d) ==> {
            let t = if s@.len() > 0 && s@[0] == '-' {
                s@.drop_first()
            } else {
                s@
            };
            d.negative == (s@.len() > 0 && s@[0] == '-') && d.whole == dec_val(whole_part(t))
                && d.nanos == frac_nanos(frac_part(t)) && d.wf()
        },
{
    let n = s.unicode_len();
    if n > 0 && s.get_char(0) == '-' {
        let rest = s.substring_char(1, n);
        proof {
            assert(rest@ =~= s@.drop_first());
        }
        match parse_unsigned_decimal(rest) {
            None => None,
            Some(p) => Some(Decimal { negative: true, whole: p.0, nanos: p.1 }),
        }
    } else {
        match parse_unsigned_decimal(s) {
            None => None,
            Some(p) => Some(Decimal { negative: false, whole: p.0, nanos: p.1 }),
        }
    }
}

} // verus!
