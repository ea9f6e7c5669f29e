//! Character-level helpers for the line-oriented wire protocol: equality and
//! prefix tests, end-of-line trimming, and splitting a `key: value` line at
//! the first `": "` separator.

use vstd::prelude::*;

verus! {

/// Relies on String::push: appends the given character to the end of the string.
#[verifier::external_body]
pub fn push_char(s: &mut String, c: char)
    ensures
        final(s)@ == old(s)@.push(c),
{
    s.push(c);
}

/// Compares two string slices character by character.
pub fn str_eq(a: &str, b: &str) -> (r: bool)
    ensures
        r == (a@ == b@),
{
    let alen = a.unicode_len();
    let blen = b.unicode_len();
    if alen != blen {
        return false;
    }
    let mut i: usize = 0;
    while i < alen
        invariant
            alen == a@.len(),
            blen == b@.len(),
            alen == blen,
            i <= alen,
            forall|j: int| 0 <= j < i ==> a@[j] == b@[j],
        decreases alen - i,
    {
        if a.get_char(i) != b.get_char(i) {
            assert(a@[i as int] != b@[i as int]);
            return false;
        }
        i += 1;
    }
    proof {
        assert(a@ =~= b@);
    }
    true
}

/// Whether the text begins with the given prefix.
pub fn str_starts_with(s: &str, prefix: &str) -> (r: bool)
    ensures
        r == prefix@.is_prefix_of(s@),
{
    let plen = prefix.unicode_len();
    let slen = s.unicode_len();
    if plen > slen {
        return false;
    }
    let mut i: usize = 0;
    while i < plen
        invariant
            plen == prefix@.len(),
            slen == s@.len(),
            plen <= slen,
            i <= plen,
            forall|j: int| 0 <= j < i ==> prefix@[j] == s@[j],
        decreases plen - i,
    {
        if prefix.get_char(i) != s.get_char(i) {
            assert(prefix@[i as int] != s@[i as int]);
            assert(!(prefix@ =~= s@.subrange(0, plen as int)));
            return false;
        }
        i += 1;
    }
    proof {
        assert(prefix@ =~= s@.subrange(0, plen as int));
    }
    true
}

/// The text with every trailing carriage return or line feed removed.
pub open spec fn trim_eol_spec(s: Seq<char>) -> Seq<char>
    decreases s.len(),
{
    if s.len() > 0 && (s[s.len() - 1] == '\n' || s[s.len() - 1] == '\r') {
        trim_eol_spec(s.drop_last())
    } else {
        s
    }
}

/// Strips the trailing line terminator (LF, CRLF, or any run of CR/LF) from
/// one raw line as it came off the wire.
pub fn trim_eol(line: &str) -> (r: String)
    ensures
        r@ == trim_eol_spec(line@),
{
    let n = line.unicode_len();
    let mut end: usize = n;
    proof {
        assert(line@.subrange(0, n as int) =~= line@);
    }
    loop
        invariant
            end <= n,
            n == line@.len(),
            trim_eol_spec(line@) == trim_eol_spec(line@.subrange(0, end as int)),
        ensures
            end == 0 || (line@[end - 1] != '\n' && line@[end - 1] != '\r'),
            end <= n,
            n == line@.len(),
            trim_eol_spec(line@) == trim_eol_spec(line@.subrange(0, end as int)),
        decreases end,
    {
        if end == 0 {
            break;
        }
        let c = line.get_char(end - 1);
        if c != '\n' && c != '\r' {
            break;
        }
        proof {
            assert(line@.subrange(0, end as int).drop_last() =~= line@.subrange(
                0,
                end as int - 1,
            ));
        }
        end -= 1;
    }
    proof {
        assert(trim_eol_spec(line@.subrange(0, end as int)) == line@.subrange(0, end as int));
    }
    String::from_str(line.substring_char(0, end))
}

/// The position of the first `": "` separator at or after `i`, if any.
pub open spec fn sep_from(s: Seq<char>, i: nat) -> Option<nat>
    decreases s.len() - i,
{
    if i + 2 > s.len() {
        None
    } else if s[i as int] == ':' && s[i as int + 1] == ' ' {
        Some(i)
    } else {
        sep_from(s, (i + 1) as nat)
    }
}

/// The `(key, value)` decomposition of a line at its first `": "`, if the
/// separator occurs at all.
pub open spec fn kv_of(s: Seq<char>) -> Option<(Seq<char>, Seq<char>)> {
    match sep_from(s, 0) {
        None => None,
        Some(i) => Some(
            (s.subrange(0, i as int), s.subrange(i as int + 2, s.len() as int)),
        ),
    }
}

/// Splits a line into key and value at the first `": "` separator.
pub fn split_kv(line: &str) -> (r: Option<(String, String)>)
    ensures
        (r is None) == (kv_of(line@) is None),
        r matches Some(kv) ==> kv_of(line@) == Some((kv.0@, kv.1@)),
{
    let n = line.unicode_len();
    let mut i: usize = 0;
    loop
        invariant
            i <= n,
            n == line@.len(),
            sep_from(line@, 0) == sep_from(line@, i as nat),
        ensures
            n == line@.len(),
            i + 2 <= n,
            sep_from(line@, 0) == Some(i as nat),
            line@[i as int] == ':' && line@[i as int + 1] == ' ',
        decreases n - i,
    {
        if i >= n || i + 1 >= n {
            proof {
                assert(sep_from(line@, i as nat) is None);
            }
            return None;
        }
        if line.get_char(i) == ':' && line.get_char(i + 1) == ' ' {
            break;
        }
        proof {
            assert(sep_from(line@, i as nat) == sep_from(line@, (i + 1) as nat));
        }
        i += 1;
    }
    let key = String::from_str(line.substring_char(0, i));
    let val = String::from_str(line.substring_char(i + 2, n));
    Some((key, val))
}

} // verus!
