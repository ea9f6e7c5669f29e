//! The reply map: an ordered multimap from field name to the one-or-more
//! string values received for it, accumulated from one contiguous reply.
//! The map itself is the `multimap` crate's `MultiMap`; its contents are
//! modelled as a `Map` from key to the sequence of values in insertion
//! order, which every operation's contract speaks of.

use vstd::prelude::*;
use crate::text::{kv_of, split_kv};
use multimap::MultiMap;

verus! {

#[verifier::external_type_specification]
#[verifier::external_body]
#[verifier::reject_recursive_types(K)]
#[verifier::reject_recursive_types(V)]
#[verifier::reject_recursive_types(S)]
pub struct ExMultiMap<K, V, S>(multimap::MultiMap<K, V, S>);

/// The concrete key/value instantiation the reply map stores.
pub type StringMultiMap = MultiMap<String, String>;

/// What a `MultiMap` holds: each key's values, in insertion order.
pub uninterp spec fn mm_entries(m: StringMultiMap) -> Map<
    Seq<char>,
    Seq<Seq<char>>,
>;

/// Relies on MultiMap::new; the caller establishes the fresh map's
/// contents by clearing it.
#[verifier::external_body]
fn mm_new() -> StringMultiMap {
    MultiMap::new()
}

/// Relies on MultiMap::clear: removes every key-value pair.
#[verifier::external_body]
fn mm_clear(m: &mut StringMultiMap)
    ensures
        mm_entries(*final(m)) == no_entries(),
{
    m.clear();
}

/// Relies on MultiMap::insert: appends the value to the key's vector, or
/// starts a one-element vector for a key not yet present.
#[verifier::external_body]
fn mm_insert(m: &mut StringMultiMap, k: String, v: String)
    ensures
        mm_entries(*final(m)) == (if mm_entries(*old(m)).contains_key(k@) {
            mm_entries(*old(m)).insert(k@, mm_entries(*old(m))[k@].push(v@))
        } else {
            mm_entries(*old(m)).insert(k@, seq![v@])
        }),
{
    m.insert(k, v);
}

/// Relies on MultiMap::remove: takes out a key's whole vector of values,
/// returning it if the key was present.
#[verifier::external_body]
fn mm_remove(m: &mut StringMultiMap, k: &str) -> (r: Option<Vec<String>>)
    ensures
        mm_entries(*final(m)) == mm_entries(*old(m)).remove(k@),
        (r is Some) == mm_entries(*old(m)).contains_key(k@),
        r matches Some(vs) ==> vs.deep_view() == mm_entries(*old(m))[k@],
{
    m.remove(k)
}

/// Relies on MultiMap::get_vec: a borrow of the key's values, in insertion
/// order, if the key is present.
#[verifier::external_body]
fn mm_get_vec<'a>(m: &'a StringMultiMap, k: &str) -> (r: Option<&'a Vec<String>>)
    ensures
        (r is Some) == mm_entries(*m).contains_key(k@),
        r matches Some(vs) ==> vs.deep_view() == mm_entries(*m)[k@],
{
    m.get_vec(k)
}

/// Relies on MultiMap::contains_key: whether the key has any entry.
#[verifier::external_body]
fn mm_contains_key(m: &StringMultiMap, k: &str) -> (r: bool)
    ensures
        r == mm_entries(*m).contains_key(k@),
{
    m.contains_key(k)
}

/// Relies on MultiMap::is_empty: whether the map holds no key at all.
#[verifier::external_body]
fn mm_is_empty(m: &StringMultiMap) -> (r: bool)
    ensures
        r == (mm_entries(*m).dom() == Set::<Seq<char>>::empty()),
{
    m.is_empty()
}

/// The contents of a map with no entries.
pub open spec fn no_entries() -> Map<Seq<char>, Seq<Seq<char>>> {
    Map::empty()
}

/// Appending a value to the entries under a key, as one reply line does.
pub open spec fn multi_insert(
    m: Map<Seq<char>, Seq<Seq<char>>>,
    k: Seq<char>,
    v: Seq<char>,
) -> Map<Seq<char>, Seq<Seq<char>>> {
    if m.contains_key(k) {
        m.insert(k, m[k].push(v))
    } else {
        m.insert(k, seq![v])
    }
}

/// The map accumulated from a sequence of reply lines: each `key: value`
/// line appends under its key; lines without the separator are ignored.
pub open spec fn map_of_lines(lines: Seq<Seq<char>>) -> Map<Seq<char>, Seq<Seq<char>>>
    decreases lines.len(),
{
    if lines.len() == 0 {
        Map::empty()
    } else {
        match kv_of(lines.last()) {
            None => map_of_lines(lines.drop_last()),
            Some(kv) => multi_insert(map_of_lines(lines.drop_last()), kv.0, kv.1),
        }
    }
}

/// The values carried by lines bearing a given key, in line order.
pub open spec fn values_for_key(lines: Seq<Seq<char>>, k: Seq<char>) -> Seq<Seq<char>>
    decreases lines.len(),
{
    if lines.len() == 0 {
        Seq::empty()
    } else {
        let pre = values_for_key(lines.drop_last(), k);
        match kv_of(lines.last()) {
            None => pre,
            Some(kv) => if kv.0 == k {
                pre.push(kv.1)
            } else {
                pre
            },
        }
    }
}

/// For any reply map built from `key: value` lines, the entry under a key
/// holds exactly the values the lines carried for that key, in insertion
/// order - so the all-values extractor returns exactly those values.
pub proof fn lemma_map_of_lines_values(lines: Seq<Seq<char>>, k: Seq<char>)
    ensures
        map_of_lines(lines).contains_key(k) == (values_for_key(lines, k).len() > 0),
        map_of_lines(lines).contains_key(k) ==> map_of_lines(lines)[k] == values_for_key(
            lines,
            k,
        ),
    decreases lines.len(),
{
    if lines.len() > 0 {
        lemma_map_of_lines_values(lines.drop_last(), k);
        let pre = map_of_lines(lines.drop_last());
        match kv_of(lines.last()) {
            None => {},
            Some(kv) => {
                if kv.0 == k {
                    if pre.contains_key(k) {
                        assert(map_of_lines(lines)[k] == pre[k].push(kv.1));
                    } else {
                        assert(values_for_key(lines.drop_last(), k).len() == 0);
                        assert(values_for_key(lines, k) =~= seq![kv.1]);
                        assert(map_of_lines(lines)[k] == seq![kv.1]);
                    }
                } else {
                    assert(map_of_lines(lines).contains_key(k) == pre.contains_key(k));
                    if pre.contains_key(k) {
                        assert(map_of_lines(lines)[k] == pre[k]);
                    }
                }
            },
        }
    }
}

/// The index of the first line feed at or after `i`, or the text's length.
pub open spec fn nl_from(s: Seq<char>, i: nat) -> nat
    decreases s.len() - i,
{
    if i >= s.len() {
        s.len()
    } else if s[i as int] == '\n' {
        i
    } else {
        nl_from(s, i + 1)
    }
}

proof fn lemma_nl_from_ge(s: Seq<char>, i: nat)
    requires
        i <= s.len(),
    ensures
        i <= nl_from(s, i) <= s.len(),
    decreases s.len() - i,
{
    if i < s.len() && s[i as int] != '\n' {
        lemma_nl_from_ge(s, i + 1);
    }
}

/// One line segment with a single trailing carriage return dropped.
pub open spec fn strip_cr(l: Seq<char>) -> Seq<char> {
    if l.len() > 0 && l[l.len() - 1] == '\r' {
        l.drop_last()
    } else {
        l
    }
}

/// The lines of the text from position `i` on: split at each line feed,
/// with no empty final line for a trailing break.
pub open spec fn lines_from(s: Seq<char>, i: nat) -> Seq<Seq<char>>
    decreases s.len() - i,
    via lines_from_decreases
{
    if i >= s.len() {
        Seq::empty()
    } else {
        let j = nl_from(s, i);
        let line = strip_cr(s.subrange(i as int, j as int));
        if j >= s.len() {
            seq![line]
        } else {
            seq![line] + lines_from(s, j + 1)
        }
    }
}

#[via_fn]
proof fn lines_from_decreases(s: Seq<char>, i: nat) {
    if i < s.len() {
        lemma_nl_from_ge(s, i);
    }
}

/// The lines of a text, as reply text is split into them.
pub open spec fn lines_of(s: Seq<char>) -> Seq<Seq<char>> {
    lines_from(s, 0)
}

/// Splits reply text into its lines.
pub fn split_lines(s: &str) -> (r: Vec<String>)
    ensures
        r.deep_view() == lines_of(s@),
{
    let n = s.unicode_len();
    let mut out: Vec<String> = Vec::new();
    let mut start: usize = 0;
    proof {
        assert(out.deep_view() =~= Seq::<Seq<char>>::empty());
        assert(lines_of(s@) =~= Seq::<Seq<char>>::empty() + lines_from(s@, 0));
    }
    while start < n
        invariant
            start <= n,
            n == s@.len(),
            lines_of(s@) == out.deep_view() + lines_from(s@, start as nat),
        decreases n - start,
    {
        let mut j: usize = start;
        loop
            invariant
                start <= j <= n,
                n == s@.len(),
                nl_from(s@, start as nat) == nl_from(s@, j as nat),
            ensures
                start <= j <= n,
                n == s@.len(),
                j as nat == nl_from(s@, start as nat),
            decreases n - j,
        {
            if j >= n {
                proof {
                    assert(nl_from(s@, j as nat) == n);
                }
                break;
            }
            if s.get_char(j) == '\n' {
                proof {
                    assert(nl_from(s@, j as nat) == j);
                }
                break;
            }
            proof {
                assert(nl_from(s@, j as nat) == nl_from(s@, (j + 1) as nat));
            }
            j += 1;
        }
        let end = if j > start && s.get_char(j - 1) == '\r' {
            j - 1
        } else {
            j
        };
        let line = String::from_str(s.substring_char(start, end));
        proof {
            let seg = s@.subrange(start as int, j as int);
            if j > start && s@[j as int - 1] == '\r' {
                assert(seg.drop_last() =~= s@.subrange(start as int, j as int - 1));
            }
            assert(line@ == strip_cr(seg));
        }
        let ghost pre = out.deep_view();
        out.push(line);
        proof {
            assert(out.deep_view() =~= pre.push(line@));
        }
        let ghost start0 = start as nat;
        if j >= n {
            start = n;
        } else {
            start = j + 1;
        }
        proof {
            if j >= n {
                assert(lines_from(s@, start0) =~= seq![line@]);
                assert(lines_from(s@, start as nat) =~= Seq::<Seq<char>>::empty());
            } else {
                assert(lines_from(s@, start0) =~= seq![line@] + lines_from(s@, start as nat));
            }
            assert(pre + lines_from(s@, start0) =~= out.deep_view() + lines_from(
                s@,
                start as nat,
            ));
        }
    }
    proof {
        assert(lines_from(s@, start as nat) =~= Seq::<Seq<char>>::empty());
        assert(lines_of(s@) =~= out.deep_view());
    }
    out
}

/// The last value received for a key, if the key is present.
pub open spec fn last_val(m: Map<Seq<char>, Seq<Seq<char>>>, k: Seq<char>) -> Option<Seq<char>> {
    if m.contains_key(k) {
        Some(m[k].last())
    } else {
        None
    }
}

/// An ordered multi-valued map built from one reply's `key: value` lines.
pub struct RespMap {
    inner: StringMultiMap,
}

impl View for RespMap {
    type V = Map<Seq<char>, Seq<Seq<char>>>;

    closed spec fn view(&self) -> Map<Seq<char>, Seq<Seq<char>>> {
        mm_entries(self.inner)
    }
}

impl RespMap {
    /// Every present key holds at least one value.
    pub open spec fn wf(&self) -> bool {
        forall|k: Seq<char>| self@.contains_key(k) ==> #[trigger] self@[k].len() > 0
    }

    /// An empty reply map.
    pub fn new() -> (r: Self)
        ensures
            r@ == Map::<Seq<char>, Seq<Seq<char>>>::empty(),
            r.wf(),
    {
        let mut inner = mm_new();
        mm_clear(&mut inner);
        RespMap { inner }
    }

    /// Whether no field at all has been received.
    pub fn is_empty(&self) -> (r: bool)
        ensures
            r == (self@ == Map::<Seq<char>, Seq<Seq<char>>>::empty()),
    {
        let r = mm_is_empty(&self.inner);
        proof {
            if self@.dom() == Set::<Seq<char>>::empty() {
                assert(self@ =~= Map::<Seq<char>, Seq<Seq<char>>>::empty());
            } else {
                assert(self@ != Map::<Seq<char>, Seq<Seq<char>>>::empty()) by {
                    if self@ == Map::<Seq<char>, Seq<Seq<char>>>::empty() {
                        assert(self@.dom() =~= Set::<Seq<char>>::empty());
                    }
                }
            }
        }
        r
    }

    /// Whether the key has any value.
    pub fn contains_key(&self, key: &str) -> (r: bool)
        ensures
            r == self@.contains_key(key@),
    {
        mm_contains_key(&self.inner, key)
    }

    /// Appends one value under a key, after any already received for it.
    pub fn insert(&mut self, key: &str, val: &str)
        requires
            old(self).wf(),
        ensures
            final(self)@ == multi_insert(old(self)@, key@, val@),
            final(self).wf(),
    {
        mm_insert(&mut self.inner, String::from_str(key), String::from_str(val));
        proof {
            assert forall|k2: Seq<char>| self@.contains_key(k2) implies #[trigger] self@[k2].len()
                > 0 by {
                if k2 != key@ {
                    assert(self@[k2] == old(self)@[k2]);
                }
            }
        }
    }

    /// Builds a map from reply text: each line is split at the first `": "`
    /// and appended; a line without the separator is reported and ignored,
    /// never fatal.
    pub fn from_lines_reporting(lines: &Vec<String>, diag: &mut Vec<String>) -> (r: Self)
        ensures
            r@ == map_of_lines(lines.deep_view()),
            r.wf(),
            old(diag)@.is_prefix_of(final(diag)@),
    {
        let mut map = RespMap::new();
        let mut i: usize = 0;
        proof {
            assert(lines.deep_view().subrange(0, 0) =~= Seq::<Seq<char>>::empty());
        }
        while i < lines.len()
            invariant
                i <= lines.len(),
                lines.deep_view().len() == lines.len(),
                map@ == map_of_lines(lines.deep_view().subrange(0, i as int)),
                map.wf(),
                old(diag)@.is_prefix_of(diag@),
            decreases lines.len() - i,
        {
            proof {
                assert(lines.deep_view()[i as int] == lines[i as int]@);
            }
            match split_kv(lines[i].as_str()) {
                None => {
                    let mut msg = String::from_str("discarding a line without a separator: ");
                    msg.append(lines[i].as_str());
                    diag.push(msg);
                    proof {
                        assert(old(diag)@.is_prefix_of(diag@));
                    }
                },
                Some(kv) => {
                    map.insert(kv.0.as_str(), kv.1.as_str());
                },
            }
            proof {
                let pre = lines.deep_view().subrange(0, i as int);
                let cur = lines.deep_view().subrange(0, i as int + 1);
                assert(cur.drop_last() =~= pre);
                assert(cur.last() == lines.deep_view()[i as int]);
            }
            i += 1;
        }
        proof {
            assert(lines.deep_view().subrange(0, lines.len() as int) =~= lines.deep_view());
        }
        map
    }

    /// Builds a map from reply text, dropping lines without the separator
    /// silently.
    pub fn from_lines(lines: &Vec<String>) -> (r: Self)
        ensures
            r@ == map_of_lines(lines.deep_view()),
            r.wf(),
    {
        let mut diag: Vec<String> = Vec::new();
        RespMap::from_lines_reporting(lines, &mut diag)
    }

    /// Builds a map from one contiguous reply's text, line by line.
    pub fn from_string(input: String) -> (r: Self)
        ensures
            r@ == map_of_lines(lines_of(input@)),
            r.wf(),
    {
        let lines = split_lines(input.as_str());
        RespMap::from_lines(&lines)
    }

    /// Removes a key, returning every value received for it in insertion
    /// order; an absent key yields the empty vector.
    pub fn get_vec(&mut self, key: &str) -> (r: Vec<String>)
        requires
            old(self).wf(),
        ensures
            final(self)@ == old(self)@.remove(key@),
            final(self).wf(),
            old(self)@.contains_key(key@) ==> r.deep_view() == old(self)@[key@],
            !old(self)@.contains_key(key@) ==> r.len() == 0,
    {
        let r = match mm_remove(&mut self.inner, key) {
            None => Vec::new(),
            Some(vs) => vs,
        };
        proof {
            assert forall|k2: Seq<char>| self@.contains_key(k2) implies #[trigger] self@[k2].len()
                > 0 by {
                assert(self@[k2] == old(self)@[k2]);
            }
        }
        r
    }

    /// Removes a key, returning the last value received for it.
    pub fn get_str(&mut self, key: &str) -> (r: Option<String>)
        requires
            old(self).wf(),
        ensures
            final(self)@ == old(self)@.remove(key@),
            final(self).wf(),
            (r is Some) == old(self)@.contains_key(key@),
            r matches Some(s) ==> last_val(old(self)@, key@) == Some(s@),
    {
        match mm_remove(&mut self.inner, key) {
            None => None,
            Some(mut vs) => {
                proof {
                    assert(vs.deep_view().len() == vs.len());
                }
                let last = vs.pop().unwrap();
                proof {
                    assert(vs.deep_view().push(last@) =~= old(self)@[key@]);
                }
                Some(last)
            },
        }
    }
}

/// The u32 a key's last value parses to, if the key is present and its last
/// value is a valid decimal.
pub open spec fn parsed_u32(v: Option<Seq<char>>) -> Option<u32> {
    match v {
        None => None,
        Some(s) => if crate::numbers::valid_u32(s) {
            Some(crate::numbers::dec_val(s) as u32)
        } else {
            None
        },
    }
}

/// The u16 a key's last value parses to, if any.
pub open spec fn parsed_u16(v: Option<Seq<char>>) -> Option<u16> {
    match v {
        None => None,
        Some(s) => if crate::numbers::valid_u16(s) {
            Some(crate::numbers::dec_val(s) as u16)
        } else {
            None
        },
    }
}

/// The u8 a key's last value parses to, if any.
pub open spec fn parsed_u8(v: Option<Seq<char>>) -> Option<u8> {
    match v {
        None => None,
        Some(s) => if crate::numbers::valid_u8(s) {
            Some(crate::numbers::dec_val(s) as u8)
        } else {
            None
        },
    }
}

/// The i32 a key's last value parses to, if any.
pub open spec fn parsed_i32(v: Option<Seq<char>>) -> Option<i32> {
    match v {
        None => None,
        Some(s) => if crate::numbers::valid_i32(s) {
            Some(crate::numbers::int_val(s) as i32)
        } else {
            None
        },
    }
}

/// The duration a key's last value parses to, if any.
pub open spec fn parsed_duration(v: Option<Seq<char>>) -> Option<crate::duration::Duration> {
    match v {
        None => None,
        Some(s) => if crate::duration::valid_decimal(s) {
            Some(
                crate::duration::Duration {
                    secs: crate::numbers::dec_val(crate::duration::whole_part(s)) as u64,
                    nanos: crate::duration::frac_nanos(crate::duration::frac_part(s)) as u32,
                },
            )
        } else {
            None
        },
    }
}
/// The signed decimal a key's last value parses to, if any.
pub open spec fn parsed_decimal(v: Option<Seq<char>>) -> Option<crate::duration::Decimal> {
    match v {
        None => None,
        Some(s) => if crate::duration::valid_signed_decimal(s) {
            Some(
                {
                    let t = if s.len() > 0 && s[0] == '-' {
                        s.drop_first()
                    } else {
                        s
                    };
                    crate::duration::Decimal {
                        negative: s.len() > 0 && s[0] == '-',
                        whole: crate::numbers::dec_val(crate::duration::whole_part(t)) as u64,
                        nanos: crate::duration::frac_nanos(crate::duration::frac_part(t)) as u32,
                    }
                },
            )
        } else {
            None
        },
    }
}

impl RespMap {
    /// Reads, without consuming, the last value received for a key.
    pub fn read_str(&self, key: &str) -> (r: Option<String>)
        requires
            self.wf(),
        ensures
            (r is Some) == self@.contains_key(key@),
            r matches Some(s) ==> last_val(self@, key@) == Some(s@),
    {
        match mm_get_vec(&self.inner, key) {
            None => None,
            Some(vs) => {
                proof {
                    assert(vs.deep_view().len() == vs.len());
                }
                Some(vs[vs.len() - 1].clone())
            },
        }
    }

    /// Reads, without consuming, every value received for a key, in
    /// insertion order; an absent key yields the empty vector.
    pub fn read_vec(&self, key: &str) -> (r: Vec<String>)
        requires
            self.wf(),
        ensures
            self@.contains_key(key@) ==> r.deep_view() == self@[key@],
            !self@.contains_key(key@) ==> r.deep_view() == Seq::<Seq<char>>::empty(),
    {
        match mm_get_vec(&self.inner, key) {
            None => {
                let r: Vec<String> = Vec::new();
                proof {
                    assert(r.deep_view() =~= Seq::<Seq<char>>::empty());
                }
                r
            },
            Some(vs) => {
                let mut out: Vec<String> = Vec::new();
                let mut i: usize = 0;
                proof {
                    assert(vs.deep_view().len() == vs.len());
                }
                while i < vs.len()
                    invariant
                        i <= vs.len(),
                        vs.deep_view().len() == vs.len(),
                        vs.deep_view() == self@[key@],
                        self@.contains_key(key@),
                        out.deep_view().len() == i,
                        forall|j: int| 0 <= j < i ==> out.deep_view()[j] == vs.deep_view()[j],
                    decreases vs.len() - i,
                {
                    out.push(vs[i].clone());
                    i += 1;
                }
                proof {
                    assert(out.deep_view() =~= self@[key@]);
                }
                out
            },
        }
    }

    /// Removes a key and whatever values it held, leaving other keys alone.
    pub fn consume(&mut self, key: &str)
        requires
            old(self).wf(),
        ensures
            final(self)@ == old(self)@.remove(key@),
            final(self).wf(),
    {
        let r = mm_remove(&mut self.inner, key);
        proof {
            assert forall|k2: Seq<char>| self@.contains_key(k2) implies #[trigger] self@[k2].len()
                > 0 by {
                assert(self@[k2] == old(self)@[k2]);
            }
        }
    }

    /// Removes a key and parses its last value as a u32.
    pub fn get_u32(&mut self, key: &str) -> (r: Option<u32>)
        requires
            old(self).wf(),
        ensures
            final(self)@ == old(self)@.remove(key@),
            final(self).wf(),
            r == parsed_u32(last_val(old(self)@, key@)),
    {
        match self.get_str(key) {
            None => None,
            Some(s) => crate::numbers::parse_u32(s.as_str()),
        }
    }

    /// Removes a key and parses its last value as a u16.
    pub fn get_u16(&mut self, key: &str) -> (r: Option<u16>)
        requires
            old(self).wf(),
        ensures
            final(self)@ == old(self)@.remove(key@),
            final(self).wf(),
            r == parsed_u16(last_val(old(self)@, key@)),
    {
        match self.get_str(key) {
            None => None,
            Some(s) => crate::numbers::parse_u16(s.as_str()),
        }
    }

    /// Removes a key and parses its last value as a u8.
    pub fn get_u8(&mut self, key: &str) -> (r: Option<u8>)
        requires
            old(self).wf(),
        ensures
            final(self)@ == old(self)@.remove(key@),
            final(self).wf(),
            r == parsed_u8(last_val(old(self)@, key@)),
    {
        match self.get_str(key) {
            None => None,
            Some(s) => crate::numbers::parse_u8(s.as_str()),
        }
    }

    /// Removes a key and parses its last value as an i32.
    pub fn get_i32(&mut self, key: &str) -> (r: Option<i32>)
        requires
            old(self).wf(),
        ensures
            final(self)@ == old(self)@.remove(key@),
            final(self).wf(),
            r == parsed_i32(last_val(old(self)@, key@)),
    {
        match self.get_str(key) {
            None => None,
            Some(s) => crate::numbers::parse_i32(s.as_str()),
        }
    }

    /// Removes a key, returning its last value or the empty string.
    pub fn get_def_str(&mut self, key: &str) -> (r: String)
        requires
            old(self).wf(),
        ensures
            final(self)@ == old(self)@.remove(key@),
            final(self).wf(),
            last_val(old(self)@, key@) matches Some(s) ==> r@ == s,
            last_val(old(self)@, key@) is None ==> r@ == Seq::<char>::empty(),
    {
        match self.get_str(key) {
            None => String::new(),
            Some(s) => s,
        }
    }

    /// Removes a key and parses its last value as a u32, zero when absent
    /// or malformed.
    pub fn get_def_u32(&mut self, key: &str) -> (r: u32)
        requires
            old(self).wf(),
        ensures
            final(self)@ == old(self)@.remove(key@),
            final(self).wf(),
            r == match parsed_u32(last_val(old(self)@, key@)) {
                None => 0u32,
                Some(n) => n,
            },
    {
        match self.get_u32(key) {
            None => 0,
            Some(n) => n,
        }
    }

    /// Removes a key and parses its last value as an i32, zero when absent
    /// or malformed.
    pub fn get_def_i32(&mut self, key: &str) -> (r: i32)
        requires
            old(self).wf(),
        ensures
            final(self)@ == old(self)@.remove(key@),
            final(self).wf(),
            r == match parsed_i32(last_val(old(self)@, key@)) {
                None => 0i32,
                Some(n) => n,
            },
    {
        match self.get_i32(key) {
            None => 0,
            Some(n) => n,
        }
    }

    /// Removes a key and parses its last value as a duration of seconds.
    pub fn as_duration(&mut self, key: &str) -> (r: Option<crate::duration::Duration>)
        requires
            old(self).wf(),
        ensures
            final(self)@ == old(self)@.remove(key@),
            final(self).wf(),
            r == parsed_duration(last_val(old(self)@, key@)),
    {
        match self.get_str(key) {
            None => None,
            Some(s) => crate::duration::parse_duration(s.as_str()),
        }
    }

    /// Removes a key and parses its last value as a duration, zero when
    /// absent or malformed.
    pub fn as_duration_def(&mut self, key: &str) -> (r: crate::duration::Duration)
        requires
            old(self).wf(),
        ensures
            final(self)@ == old(self)@.remove(key@),
            final(self).wf(),
            r == match parsed_duration(last_val(old(self)@, key@)) {
                None => crate::duration::Duration { secs: 0u64, nanos: 0u32 },
                Some(d) => d,
            },
    {
        match self.as_duration(key) {
            None => crate::duration::Duration::zero(),
            Some(d) => d,
        }
    }
}

/// Bint coercion: the token `"1"` is true, `"0"` is false, and any other
/// token is a value error.
pub open spec fn bint_of(s: Seq<char>) -> Option<bool> {
    if s == "1"@ {
        Some(true)
    } else if s == "0"@ {
        Some(false)
    } else {
        None
    }
}

/// Coerces a bint token, failing on anything but `"0"` and `"1"`.
pub fn parse_bint(s: &str) -> (r: Result<bool, crate::error::Error>)
    ensures
        (r is Ok) == (bint_of(s@) is Some),
        r matches Ok(b) ==> bint_of(s@) == Some(b),
        r matches Err(e) ==> e matches crate::error::Error::ValueError { msg } && msg@ == s@,
{
    if crate::text::str_eq(s, "1") {
        Ok(true)
    } else if crate::text::str_eq(s, "0") {
        Ok(false)
    } else {
        Err(crate::error::Error::ValueError { msg: String::from_str(s) })
    }
}

impl RespMap {
    /// Removes a key and coerces its last value as a bint; an absent key is
    /// false, a token other than `"0"` or `"1"` is a value error.
    pub fn as_bool(&mut self, key: &str) -> (r: Result<bool, crate::error::Error>)
        requires
            old(self).wf(),
        ensures
            final(self)@ == old(self)@.remove(key@),
            final(self).wf(),
            last_val(old(self)@, key@) is None ==> (r matches Ok(b) && b == false),
            last_val(old(self)@, key@) matches Some(v) ==> ((r is Ok) == (bint_of(v) is Some)
                && (r matches Ok(b) ==> bint_of(v) == Some(b))),
    {
        match self.get_str(key) {
            None => Ok(false),
            Some(s) => parse_bint(s.as_str()),
        }
    }
}

} // verus!
