//! Aggregate expressions usable in a select list.

use vstd::prelude::*;

verus! {

/// An aggregate function applied to a column; `StringAgg` also carries a
/// separator.
#[derive(Debug)]
pub enum Agregate {
    Sum(String),
    Count(String),
    Max(String),
    Min(String),
    Avg(String),
    First(String),
    Last(String),
    StdDev(String),
    Var(String),
    StringAgg(String, String),
}

/// The SQL text of an aggregate expression.
pub open spec fn agregate_text(a: Agregate) -> Seq<char> {
    match a {
        Agregate::Sum(column) => ("SUM(")@ + column@ + (")")@,
        Agregate::Count(column) => ("COUNT(")@ + column@ + (")")@,
        Agregate::Max(column) => ("MAX(")@ + column@ + (")")@,
        Agregate::Min(column) => ("MIN(")@ + column@ + (")")@,
        Agregate::Avg(column) => ("AVG(")@ + column@ + (")")@,
        Agregate::First(column) => ("FIRST(")@ + column@ + (")")@,
        Agregate::Last(column) => ("LAST(")@ + column@ + (")")@,
        Agregate::StdDev(column) => ("STDDEV(")@ + column@ + (")")@,
        Agregate::Var(column) => ("VAR(")@ + column@ + (")")@,
        Agregate::StringAgg(column, separator) => ("STRING_AGG(")@ + column@ + (", '")@
            + separator@ + ("')")@,
    }
}

impl Agregate {
    /// Renders this aggregate expression to SQL text.
    pub fn to_sql(&self) -> (r: String)
        ensures
            r@ == agregate_text(*self),
    {
        let mut out = String::new();
        match self {
            Agregate::Sum(column) => {
                out.append("SUM(");
                out.append(column.as_str());
                out.append(")");
            },
            Agregate::Count(column) => {
                out.append("COUNT(");
                out.append(column.as_str());
                out.append(")");
            },
            Agregate::Max(column) => {
                out.append("MAX(");
                out.append(column.as_str());
                out.append(")");
            },
            Agregate::Min(column) => {
                out.append("MIN(");
                out.append(column.as_str());
                out.append(")");
            },
            Agregate::Avg(column) => {
                out.append("AVG(");
                out.append(column.as_str());
                out.append(")");
            },
            Agregate::First(column) => {
                out.append("FIRST(");
                out.append(column.as_str());
                out.append(")");
            },
            Agregate::Last(column) => {
                out.append("LAST(");
                out.append(column.as_str());
                out.append(")");
            },
            Agregate::StdDev(column) => {
                out.append("STDDEV(");
                out.append(column.as_str());
                out.append(")");
            },
            Agregate::Var(column) => {
                out.append("VAR(");
                out.append(column.as_str());
                out.append(")");
            },
            Agregate::StringAgg(column, separator) => {
                out.append("STRING_AGG(");
                out.append(column.as_str());
                out.append(", '");
                out.append(separator.as_str());
                out.append("')");
            },
        }
        proof {
            assert(out@ =~= agregate_text(*self));
        }
        out
    }
}

} // verus!
