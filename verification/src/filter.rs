//! Search filter expressions: a tag compared to a value, negation, and a
//! conjunction of such expressions rendered as one query string. The whole
//! composed query is escaped here; the command layer wraps it in quotes
//! without escaping.

use vstd::prelude::*;
use crate::protocol::Tag;
use crate::text::push_char;

verus! {

/// One comparison within a search filter.
pub enum FilterExpr {
    Equals(Tag, String),
    Contains(Tag, String),
    Not(Box<FilterExpr>),
}

/// The query text of one expression.
pub open spec fn query_of(e: FilterExpr) -> Seq<char>
    decreases e,
{
    match e {
        FilterExpr::Equals(t, s) => "("@ + t.spec_name() + " == \""@ + s@ + "\")"@,
        FilterExpr::Contains(t, s) => "("@ + t.spec_name() + " contains \""@ + s@ + "\")"@,
        FilterExpr::Not(inner) => "!"@ + query_of(*inner),
    }
}

impl FilterExpr {
    /// Renders this expression as query text.
    pub fn to_query(&self) -> (r: String)
        ensures
            r@ == query_of(*self),
        decreases *self,
    {
        match self {
            FilterExpr::Equals(t, s) => {
                let mut out = String::from_str("(");
                out.append(t.name());
                out.append(" == \"");
                out.append(s.as_str());
                out.append("\")");
                out
            },
            FilterExpr::Contains(t, s) => {
                let mut out = String::from_str("(");
                out.append(t.name());
                out.append(" contains \"");
                out.append(s.as_str());
                out.append("\")");
                out
            },
            FilterExpr::Not(inner) => {
                let mut out = String::from_str("!");
                let q = inner.to_query();
                out.append(q.as_str());
                out
            },
        }
    }
}

/// Builders that turn a tag into a comparison expression.
pub trait ToFilterExpr: Sized {
    /// The tag this value stands for.
    spec fn as_tag(self) -> Tag;

    /// The tag equals the given text.
    fn equals(self, s: &str) -> (r: FilterExpr)
        ensures
            r matches FilterExpr::Equals(t, v) && t == self.as_tag() && v@ == s@,
    ;

    /// The tag's value contains the given text.
    fn contains(self, s: &str) -> (r: FilterExpr)
        ensures
            r matches FilterExpr::Contains(t, v) && t == self.as_tag() && v@ == s@,
    ;
}

impl ToFilterExpr for Tag {
    open spec fn as_tag(self) -> Tag {
        self
    }

    fn equals(self, s: &str) -> (r: FilterExpr) {
        FilterExpr::Equals(self, String::from_str(s))
    }

    fn contains(self, s: &str) -> (r: FilterExpr) {
        FilterExpr::Contains(self, String::from_str(s))
    }
}

/// One escaped character: backslash, double quote and apostrophe gain a
/// leading backslash; everything else stands as it is.
pub open spec fn escape_char(c: char) -> Seq<char> {
    if c == '\\' {
        seq!['\\', '\\']
    } else if c == '"' {
        seq!['\\', '"']
    } else if c == '\'' {
        seq!['\\', '\'']
    } else {
        seq![c]
    }
}

/// The text with every special character escaped.
pub open spec fn escape_spec(s: Seq<char>) -> Seq<char>
    decreases s.len(),
{
    if s.len() == 0 {
        Seq::empty()
    } else {
        escape_spec(s.drop_last()) + escape_char(s.last())
    }
}

/// Escapes backslashes, double quotes and apostrophes in a composed
/// sub-expression, so it can be embedded as a quoted argument.
pub fn escape(s: &str) -> (r: String)
    ensures
        r@ == escape_spec(s@),
{
    let n = s.unicode_len();
    let mut out = String::new();
    let mut i: usize = 0;
    proof {
        assert(s@.subrange(0, 0) =~= Seq::<char>::empty());
    }
    while i < n
        invariant
            i <= n,
            n == s@.len(),
            out@ == escape_spec(s@.subrange(0, i as int)),
        decreases n - i,
    {
        proof {
            let pre = s@.subrange(0, i as int);
            let ext = s@.subrange(0, i as int + 1);
            assert(ext.drop_last() =~= pre);
            assert(ext.last() == s@[i as int]);
        }
        let c = s.get_char(i);
        if c == '\\' {
            out.append("\\\\");
            proof {
                reveal_strlit("\\\\");
                assert("\\\\"@ =~= seq!['\\', '\\']);
            }
        } else if c == '"' {
            out.append("\\\"");
            proof {
                reveal_strlit("\\\"");
                assert("\\\""@ =~= seq!['\\', '"']);
            }
        } else if c == '\'' {
            out.append("\\'");
            proof {
                reveal_strlit("\\'");
                assert("\\'"@ =~= seq!['\\', '\'']);
            }
        } else {
            push_char(&mut out, c);
            proof {
                assert(out@ =~= escape_spec(s@.subrange(0, i as int)) + seq![c]);
            }
        }
        i += 1;
    }
    proof {
        assert(s@.subrange(0, n as int) =~= s@);
    }
    out
}

/// A conjunction of filter expressions.
pub struct Filter {
    exprs: Vec<FilterExpr>,
}

impl View for Filter {
    type V = Seq<FilterExpr>;

    closed spec fn view(&self) -> Seq<FilterExpr> {
        self.exprs@
    }
}

/// The queries of a conjunction's parts, joined with ` AND `.
pub open spec fn joined_of(es: Seq<FilterExpr>) -> Seq<char>
    decreases es.len(),
{
    if es.len() == 0 {
        Seq::empty()
    } else if es.len() == 1 {
        query_of(es[0])
    } else {
        joined_of(es.drop_last()) + " AND "@ + query_of(es.last())
    }
}

impl Filter {
    /// An empty conjunction, satisfied by everything.
    pub fn new() -> (r: Filter)
        ensures
            r@ == Seq::<FilterExpr>::empty(),
    {
        Filter { exprs: Vec::new() }
    }

    /// A conjunction of one expression.
    pub fn with(filter: FilterExpr) -> (r: Filter)
        ensures
            r@ == seq![filter],
    {
        let mut exprs = Vec::new();
        exprs.push(filter);
        proof {
            assert(exprs@ =~= seq![filter]);
        }
        Filter { exprs }
    }

    /// The conjunction extended by one more expression.
    pub fn and(self, other: FilterExpr) -> (r: Filter)
        ensures
            r@ == self@.push(other),
    {
        let mut exprs = self.exprs;
        exprs.push(other);
        Filter { exprs }
    }

    /// The conjunction extended by the negation of an expression.
    pub fn and_not(self, other: FilterExpr) -> (r: Filter)
        ensures
            r@.len() == self@.len() + 1,
            r@.drop_last() == self@,
            r@.last() matches FilterExpr::Not(inner) && *inner == other,
    {
        let mut exprs = self.exprs;
        exprs.push(FilterExpr::Not(Box::new(other)));
        proof {
            assert(exprs@.drop_last() =~= self@);
        }
        Filter { exprs }
    }

    /// The whole conjunction as one escaped, parenthesized query string;
    /// an empty conjunction renders as no query at all.
    pub fn to_query(&self) -> (r: Option<String>)
        ensures
            (r is Some) == (self@.len() > 0),
            r matches Some(q) ==> q@ == "("@ + escape_spec(joined_of(self@)) + ")"@,
    {
        if self.exprs.len() == 0 {
            return None;
        }
        let mut joined = String::new();
        let mut i: usize = 0;
        proof {
            assert(self@.subrange(0, 0) =~= Seq::<FilterExpr>::empty());
        }
        while i < self.exprs.len()
            invariant
                i <= self.exprs.len(),
                self.exprs@ == self@,
                joined@ == joined_of(self@.subrange(0, i as int)),
            decreases self.exprs.len() - i,
        {
            proof {
                let pre = self@.subrange(0, i as int);
                let ext = self@.subrange(0, i as int + 1);
                assert(ext.drop_last() =~= pre);
                assert(ext.last() == self@[i as int]);
            }
            if i > 0 {
                joined.append(" AND ");
            }
            let q = self.exprs[i].to_query();
            joined.append(q.as_str());
            proof {
                if i == 0 {
                    assert(self@.subrange(0, 1).len() == 1);
                }
            }
            i += 1;
        }
        proof {
            assert(self@.subrange(0, self@.len() as int) =~= self@);
        }
        let escaped = escape(joined.as_str());
        let mut out = String::from_str("(");
        out.append(escaped.as_str());
        out.append(")");
        Some(out)
    }
}

} // verus!
