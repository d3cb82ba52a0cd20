//! The recursive boolean-condition tree and its deterministic rendering.
//!
//! Every `And`/`Or` node renders fully parenthesized; leaf nodes are never
//! self-parenthesized.  The output is therefore unambiguous regardless of
//! nesting depth or mixed `AND`/`OR` precedence.

use crate::text::{list_text, push_list, SqlText};
use crate::value::{push_value, value_text, SqlValue};
use vstd::prelude::*;

verus! {

/// A node of the predicate expression tree.
///
/// Combinator nodes (`And`, `Or`) own exactly two children; every other
/// variant is a leaf.  `Native` carries a pre-formatted raw SQL fragment
/// rendered verbatim.  An `In`/`NotIn` list is non-empty by convention;
/// an empty list is accepted and renders as `field IN ()`, which most SQL
/// engines reject.
pub enum Condition {
    Native(String),
    Null(String),
    NotNull(String),
    And(Box<Condition>, Box<Condition>),
    Or(Box<Condition>, Box<Condition>),
    In(String, Vec<SqlValue>),
    NotIn(String, Vec<SqlValue>),
    Eq(String, SqlValue),
    Neq(String, SqlValue),
    Between(String, SqlValue, SqlValue),
    Gt(String, SqlValue),
    Gte(String, SqlValue),
    Lt(String, SqlValue),
    Lte(String, SqlValue),
    Like(String, SqlValue),
}

/// The SQL text of a condition tree.
pub open spec fn cond_text(c: Condition) -> Seq<char>
    decreases c,
{
    match c {
        Condition::Or(l, r) => ("(")@ + cond_text(*l) + (" OR ")@ + cond_text(*r) + (")")@,
        Condition::And(l, r) => ("(")@ + cond_text(*l) + (" AND ")@ + cond_text(*r) + (")")@,
        Condition::Null(f) => f@ + (" IS NULL")@,
        Condition::NotNull(f) => f@ + (" IS NOT NULL")@,
        Condition::In(f, d) => f@ + (" IN (")@ + list_text(d@) + (")")@,
        Condition::NotIn(f, d) => f@ + (" NOT IN (")@ + list_text(d@) + (")")@,
        Condition::Eq(f, d) => f@ + (" = ")@ + value_text(d),
        Condition::Neq(f, d) => f@ + (" != ")@ + value_text(d),
        Condition::Lt(f, d) => f@ + (" < ")@ + value_text(d),
        Condition::Lte(f, d) => f@ + (" <= ")@ + value_text(d),
        Condition::Gt(f, d) => f@ + (" > ")@ + value_text(d),
        Condition::Gte(f, d) => f@ + (" >= ")@ + value_text(d),
        Condition::Like(f, d) => f@ + (" LIKE ")@ + value_text(d),
        Condition::Between(f, a, b) => f@ + (" BETWEEN ")@ + value_text(a) + (" AND ")@
            + value_text(b),
        Condition::Native(f) => f@,
    }
}

/// Appends the SQL text of `c` to `out`.
pub fn push_condition(c: &Condition, out: &mut String)
    ensures
        final(out)@ == old(out)@ + cond_text(*c),
    decreases *c,
{
    match c {
        Condition::Or(l, r) => {
            out.append("(");
            push_condition(l, out);
            out.append(" OR ");
            push_condition(r, out);
            out.append(")");
            proof {
                assert(out@ =~= old(out)@ + cond_text(*c));
            }
        },
        Condition::And(l, r) => {
            out.append("(");
            push_condition(l, out);
            out.append(" AND ");
            push_condition(r, out);
            out.append(")");
            proof {
                assert(out@ =~= old(out)@ + cond_text(*c));
            }
        },
        Condition::Null(f) => {
            out.append(f.as_str());
            out.append(" IS NULL");
            proof {
                assert(out@ =~= old(out)@ + cond_text(*c));
            }
        },
        Condition::NotNull(f) => {
            out.append(f.as_str());
            out.append(" IS NOT NULL");
            proof {
                assert(out@ =~= old(out)@ + cond_text(*c));
            }
        },
        Condition::In(f, d) => {
            out.append(f.as_str());
            out.append(" IN (");
            push_list(d, out);
            out.append(")");
            proof {
                assert(out@ =~= old(out)@ + cond_text(*c));
            }
        },
        Condition::NotIn(f, d) => {
            out.append(f.as_str());
            out.append(" NOT IN (");
            push_list(d, out);
            out.append(")");
            proof {
                assert(out@ =~= old(out)@ + cond_text(*c));
            }
        },
        Condition::Eq(f, d) => {
            out.append(f.as_str());
            out.append(" = ");
            push_value(d, out);
            proof {
                assert(out@ =~= old(out)@ + cond_text(*c));
            }
        },
        Condition::Neq(f, d) => {
            out.append(f.as_str());
            out.append(" != ");
            push_value(d, out);
            proof {
                assert(out@ =~= old(out)@ + cond_text(*c));
            }
        },
        Condition::Lt(f, d) => {
            out.append(f.as_str());
            out.append(" < ");
            push_value(d, out);
            proof {
                assert(out@ =~= old(out)@ + cond_text(*c));
            }
        },
        Condition::Lte(f, d) => {
            out.append(f.as_str());
            out.append(" <= ");
            push_value(d, out);
            proof {
                assert(out@ =~= old(out)@ + cond_text(*c));
            }
        },
        Condition::Gt(f, d) => {
            out.append(f.as_str());
            out.append(" > ");
            push_value(d, out);
            proof {
                assert(out@ =~= old(out)@ + cond_text(*c));
            }
        },
        Condition::Gte(f, d) => {
            out.append(f.as_str());
            out.append(" >= ");
            push_value(d, out);
            proof {
                assert(out@ =~= old(out)@ + cond_text(*c));
            }
        },
        Condition::Like(f, d) => {
            out.append(f.as_str());
            out.append(" LIKE ");
            push_value(d, out);
            proof {
                assert(out@ =~= old(out)@ + cond_text(*c));
            }
        },
        Condition::Between(f, a, b) => {
            out.append(f.as_str());
            out.append(" BETWEEN ");
            push_value(a, out);
            out.append(" AND ");
            push_value(b, out);
            proof {
                assert(out@ =~= old(out)@ + cond_text(*c));
            }
        },
        Condition::Native(f) => {
            out.append(f.as_str());
        },
    }
}

impl Condition {
    /// Renders the whole tree to SQL text.
    ///
    /// Rendering is total over the closed node set and never fails; the
    /// result is always present.
    pub fn build_conditions(&self) -> (r: Option<String>)
        ensures
            r matches Some(s) && s@ == cond_text(*self),
    {
        let mut out = String::new();
        push_condition(self, &mut out);
        proof {
            assert(Seq::<char>::empty() + cond_text(*self) =~= cond_text(*self));
        }
        Some(out)
    }

    /// Idempotent re-render: rendering is a pure function of the tree, so
    /// any two results that `build_conditions` may return for the same
    /// tree carry identical text.
    pub proof fn lemma_rerender_idempotent(c: Condition, r1: Option<String>, r2: Option<String>)
        requires
            call_ensures(Condition::build_conditions, (&c,), r1),
            call_ensures(Condition::build_conditions, (&c,), r2),
        ensures
            r1 matches Some(s1) && r2 matches Some(s2) && s1@ == s2@,
    {
    }

    /// Builds a new `Or` root wrapping this tree and `condition`.
    pub fn or(self, condition: Self) -> (r: Self)
        ensures
            r matches Condition::Or(l, rhs) && *l == self && *rhs == condition,
    {
        Self::Or(Box::new(self), Box::new(condition))
    }

    /// Builds a new `And` root wrapping this tree and `condition`.
    pub fn and(self, condition: Self) -> (r: Self)
        ensures
            r matches Condition::And(l, rhs) && *l == self && *rhs == condition,
    {
        Self::And(Box::new(self), Box::new(condition))
    }
}

} // verus!
