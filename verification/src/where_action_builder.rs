//! A condition tree generic over the value type of its leaves, and the
//! builder that folds successive conditions into it.
//!
//! The leaf value type renders through [`SqlText`], so the builder's
//! output is specified exactly for every instantiation.

use crate::text::{list_text, push_list, push_quoted, quoted, SqlText};
use vstd::prelude::*;

verus! {

/// A predicate tree over field names and values of type `T`.
///
/// `LIKE` carries its pattern as plain text and renders it as a quoted
/// SQL text literal, internal quotes doubled; every other leaf renders
/// its value through [`SqlText`].
pub enum WhereCondition<T> {
    NATIVE(String),
    NULL(String),
    NOTNULL(String),
    AND(Box<Self>, Box<Self>),
    OR(Box<Self>, Box<Self>),
    IN(String, Vec<T>),
    NOTIN(String, Vec<T>),
    EQ(String, T),
    NEQ(String, T),
    BETWEEN(String, T, T),
    GT(String, T),
    GTE(String, T),
    LT(String, T),
    LE(String, T),
    LIKE(String, String),
}

/// The SQL text of a generic predicate tree.
pub open spec fn where_text<T: SqlText>(c: WhereCondition<T>) -> Seq<char>
    decreases c,
{
    match c {
        WhereCondition::OR(l, r) => ("(")@ + where_text(*l) + (" OR ")@ + where_text(*r) + (")")@,
        WhereCondition::AND(l, r) => ("(")@ + where_text(*l) + (" AND ")@ + where_text(*r)
            + (")")@,
        WhereCondition::NULL(f) => f@ + (" IS NULL")@,
        WhereCondition::NOTNULL(f) => f@ + (" IS NOT NULL")@,
        WhereCondition::IN(f, d) => f@ + (" IN (")@ + list_text(d@) + (")")@,
        WhereCondition::NOTIN(f, d) => f@ + (" NOT IN (")@ + list_text(d@) + (")")@,
        WhereCondition::EQ(f, d) => f@ + (" = ")@ + d.sql_text(),
        WhereCondition::NEQ(f, d) => f@ + (" != ")@ + d.sql_text(),
        WhereCondition::LT(f, d) => f@ + (" < ")@ + d.sql_text(),
        WhereCondition::LE(f, d) => f@ + (" <= ")@ + d.sql_text(),
        WhereCondition::GT(f, d) => f@ + (" > ")@ + d.sql_text(),
        WhereCondition::GTE(f, d) => f@ + (" >= ")@ + d.sql_text(),
        WhereCondition::LIKE(f, d) => f@ + (" LIKE ")@ + quoted(d@),
        WhereCondition::BETWEEN(f, a, b) => f@ + (" BETWEEN ")@ + a.sql_text() + (" AND ")@
            + b.sql_text(),
        WhereCondition::NATIVE(f) => f@,
    }
}

/// What an AND fold step of the builder does to the held tree.
pub open spec fn where_folds_to_and<T>(
    held: Option<WhereCondition<T>>,
    new: WhereCondition<T>,
    result: WhereCondition<T>,
) -> bool {
    match held {
        Option::None => result == new,
        Option::Some(c) => result matches WhereCondition::AND(l, r) && *l == c && *r == new,
    }
}

/// What an OR fold step of the builder does to the held tree.
pub open spec fn where_folds_to_or<T>(
    held: Option<WhereCondition<T>>,
    new: WhereCondition<T>,
    result: WhereCondition<T>,
) -> bool {
    match held {
        Option::None => result == new,
        Option::Some(c) => result matches WhereCondition::OR(l, r) && *l == c && *r == new,
    }
}

/// Appends the SQL text of `c` to `out`.
pub fn push_where<T: SqlText>(c: &WhereCondition<T>, out: &mut String)
    ensures
        final(out)@ == old(out)@ + where_text(*c),
    decreases *c,
{
    match c {
        WhereCondition::OR(l, r) => {
            out.append("(");
            push_where(l, out);
            out.append(" OR ");
            push_where(r, out);
            out.append(")");
            proof {
                assert(out@ =~= old(out)@ + where_text(*c));
            }
        },
        WhereCondition::AND(l, r) => {
            out.append("(");
            push_where(l, out);
            out.append(" AND ");
            push_where(r, out);
            out.append(")");
            proof {
                assert(out@ =~= old(out)@ + where_text(*c));
            }
        },
        WhereCondition::NULL(f) => {
            out.append(f.as_str());
            out.append(" IS NULL");
            proof {
                assert(out@ =~= old(out)@ + where_text(*c));
            }
        },
        WhereCondition::NOTNULL(f) => {
            out.append(f.as_str());
            out.append(" IS NOT NULL");
            proof {
                assert(out@ =~= old(out)@ + where_text(*c));
            }
        },
        WhereCondition::IN(f, d) => {
            out.append(f.as_str());
            out.append(" IN (");
            push_list(d, out);
            out.append(")");
            proof {
                assert(out@ =~= old(out)@ + where_text(*c));
            }
        },
        WhereCondition::NOTIN(f, d) => {
            out.append(f.as_str());
            out.append(" NOT IN (");
            push_list(d, out);
            out.append(")");
            proof {
                assert(out@ =~= old(out)@ + where_text(*c));
            }
        },
        WhereCondition::EQ(f, d) => {
            out.append(f.as_str());
            out.append(" = ");
            let t = d.to_sql_text();
            out.append(t.as_str());
            proof {
                assert(out@ =~= old(out)@ + where_text(*c));
            }
        },
        WhereCondition::NEQ(f, d) => {
            out.append(f.as_str());
            out.append(" != ");
            let t = d.to_sql_text();
            out.append(t.as_str());
            proof {
                assert(out@ =~= old(out)@ + where_text(*c));
            }
        },
        WhereCondition::LT(f, d) => {
            out.append(f.as_str());
            out.append(" < ");
            let t = d.to_sql_text();
            out.append(t.as_str());
            proof {
                assert(out@ =~= old(out)@ + where_text(*c));
            }
        },
        WhereCondition::LE(f, d) => {
            out.append(f.as_str());
            out.append(" <= ");
            let t = d.to_sql_text();
            out.append(t.as_str());
            proof {
                assert(out@ =~= old(out)@ + where_text(*c));
            }
        },
        WhereCondition::GT(f, d) => {
            out.append(f.as_str());
            out.append(" > ");
            let t = d.to_sql_text();
            out.append(t.as_str());
            proof {
                assert(out@ =~= old(out)@ + where_text(*c));
            }
        },
        WhereCondition::GTE(f, d) => {
            out.append(f.as_str());
            out.append(" >= ");
            let t = d.to_sql_text();
            out.append(t.as_str());
            proof {
                assert(out@ =~= old(out)@ + where_text(*c));
            }
        },
        WhereCondition::LIKE(f, d) => {
            out.append(f.as_str());
            out.append(" LIKE ");
            push_quoted(d.as_str(), out);
            proof {
                assert(out@ =~= old(out)@ + where_text(*c));
            }
        },
        WhereCondition::BETWEEN(f, a, b) => {
            out.append(f.as_str());
            out.append(" BETWEEN ");
            let ta = a.to_sql_text();
            out.append(ta.as_str());
            out.append(" AND ");
            let tb = b.to_sql_text();
            out.append(tb.as_str());
            proof {
                assert(out@ =~= old(out)@ + where_text(*c));
            }
        },
        WhereCondition::NATIVE(f) => {
            out.append(f.as_str());
        },
    }
}

/// A builder for one query action: the target table, the selected fields,
/// and an optional predicate tree folded in step by step.
pub struct QueryActionBuilder<T> {
    pub table: String,
    pub fields: Vec<String>,
    pub conditions: Option<WhereCondition<T>>,
    pub all: bool,
}

impl<T> Default for QueryActionBuilder<T> {
    /// A builder with an empty table name, no fields and no condition.
    fn default() -> (r: Self)
        ensures
            r.table@ == Seq::<char>::empty(),
            r.fields@.len() == 0,
            r.conditions is None,
            r.all == false,
    {
        QueryActionBuilder { table: String::new(), fields: Vec::new(), conditions: None, all: false }
    }
}

impl<T> QueryActionBuilder<T> {
    /// A fresh builder, as [`Default::default`] yields it.
    pub fn new() -> (r: Self)
        ensures
            r.table@ == Seq::<char>::empty(),
            r.fields@.len() == 0,
            r.conditions is None,
            r.all == false,
    {
        Self::default()
    }

    /// Folds `condition` into the held tree by `AND`; stores it as is
    /// when nothing is held yet.
    pub fn whene(&mut self, condition: WhereCondition<T>) -> (ret: &mut Self)
        ensures
            ret.conditions matches Some(t) && where_folds_to_and(
                old(self).conditions,
                condition,
                t,
            ),
            ret.table == old(self).table,
            ret.fields == old(self).fields,
            ret.all == old(self).all,
            *final(self) == *final(ret),
    {
        match self.conditions.take() {
            None => {
                self.conditions = Some(condition);
            },
            Some(c) => {
                self.conditions = Some(WhereCondition::AND(Box::new(c), Box::new(condition)));
            },
        }
        self
    }

    /// Folds `condition` into the held tree by `OR`; stores it as is when
    /// nothing is held yet, so the call is well-defined even on first use.
    pub fn or_where(&mut self, condition: WhereCondition<T>) -> (ret: &mut Self)
        ensures
            ret.conditions matches Some(t) && where_folds_to_or(old(self).conditions, condition, t),
            ret.table == old(self).table,
            ret.fields == old(self).fields,
            ret.all == old(self).all,
            *final(self) == *final(ret),
    {
        match self.conditions.take() {
            None => {
                self.conditions = Some(condition);
            },
            Some(c) => {
                self.conditions = Some(WhereCondition::OR(Box::new(c), Box::new(condition)));
            },
        }
        self
    }
}

impl<T: SqlText> QueryActionBuilder<T> {
    /// Renders the held predicate tree; yields nothing — not an empty
    /// string — when no condition has been folded in yet, so callers can
    /// tell "no filter" from a filter's text and omit the clause.
    pub fn dummy_build(&self) -> (r: Option<String>)
        ensures
            self.conditions is None <==> r is None,
            self.conditions matches Some(c) ==> r matches Some(s) && s@ == where_text(c),
    {
        match &self.conditions {
            None => None,
            Some(c) => {
                let mut out = String::new();
                push_where(c, &mut out);
                proof {
                    assert(Seq::<char>::empty() + where_text(*c) =~= where_text(*c));
                }
                Some(out)
            },
        }
    }
}

} // verus!
