//! SQL literal values and their canonical renderings.
//!
//! Every variant has exactly one canonical SQL text: integers and booleans
//! in their natural base-10 / `true`/`false` form, text and date strings
//! single-quoted with internal quotes doubled, and null as the token `NULL`.

use crate::text::{
    bool_text, count_quotes, dec_rep, int_text, lemma_count_quotes_quoted, push_dec_i128,
    push_dec_u128, push_quoted, quoted, SqlText,
};
use vstd::prelude::*;

verus! {

/// A tagged SQL literal.
///
/// The integer variants of different widths all collapse to one logical
/// integer kind for rendering purposes; `Int` is a convenience alias kind
/// for 32-bit integers.  `Bytes` has no SQL text and renders as the empty
/// string.
#[derive(Debug)]
pub enum SqlValue {
    I128(i128),
    I64(i64),
    I32(i32),
    U128(u128),
    U64(u64),
    U32(u32),
    Bool(bool),
    Text(String),
    Int(i32),
    Bytes(Vec<u8>),
    StringDate(String),
    Null,
}

/// The canonical SQL text of a literal.
pub open spec fn value_text(v: SqlValue) -> Seq<char> {
    match v {
        SqlValue::Null => ("NULL")@,
        SqlValue::I128(n) => int_text(n as int),
        SqlValue::I64(n) => int_text(n as int),
        SqlValue::I32(n) => int_text(n as int),
        SqlValue::U128(n) => dec_rep(n as nat),
        SqlValue::U64(n) => dec_rep(n as nat),
        SqlValue::U32(n) => dec_rep(n as nat),
        SqlValue::Bool(b) => bool_text(b),
        SqlValue::Text(s) => quoted(s@),
        SqlValue::Int(n) => int_text(n as int),
        SqlValue::Bytes(_) => Seq::empty(),
        SqlValue::StringDate(s) => quoted(s@),
    }
}

/// Appends the canonical SQL text of `v` to `out`.
pub fn push_value(v: &SqlValue, out: &mut String)
    ensures
        final(out)@ == old(out)@ + value_text(*v),
{
    match v {
        SqlValue::Null => {
            out.append("NULL");
        },
        SqlValue::I128(n) => {
            push_dec_i128(*n, out);
        },
        SqlValue::I64(n) => {
            push_dec_i128(*n as i128, out);
        },
        SqlValue::I32(n) => {
            push_dec_i128(*n as i128, out);
        },
        SqlValue::U128(n) => {
            push_dec_u128(*n, out);
        },
        SqlValue::U64(n) => {
            push_dec_u128(*n as u128, out);
        },
        SqlValue::U32(n) => {
            push_dec_u128(*n as u128, out);
        },
        SqlValue::Bool(b) => {
            if *b {
                out.append("true");
            } else {
                out.append("false");
            }
        },
        SqlValue::Text(s) => {
            push_quoted(s.as_str(), out);
        },
        SqlValue::Int(n) => {
            push_dec_i128(*n as i128, out);
        },
        SqlValue::Bytes(_) => {
            proof {
                assert(old(out)@ + Seq::<char>::empty() =~= old(out)@);
            }
        },
        SqlValue::StringDate(s) => {
            push_quoted(s.as_str(), out);
        },
    }
}

impl SqlValue {
    /// Renders the canonical SQL text of this literal.
    pub fn to_sql(&self) -> (r: String)
        ensures
            r@ == value_text(*self),
    {
        let mut out = String::new();
        push_value(self, &mut out);
        proof {
            assert(Seq::<char>::empty() + value_text(*self) =~= value_text(*self));
        }
        out
    }

    /// Wraps borrowed text as an owned `Text` literal.
    pub fn from_string_slice(val: &str) -> (r: Self)
        ensures
            r matches SqlValue::Text(s) && s@ == val@,
    {
        Self::Text(val.to_owned())
    }
}

/// The quote-escaping round trip at the level of literals: the rendered
/// text of a `Text` literal holds twice the quote characters of its
/// content, plus the two wrapping quotes.
pub proof fn lemma_text_quote_count(s: String)
    ensures
        count_quotes(value_text(SqlValue::Text(s))) == 2 * count_quotes(s@) + 2,
{
    lemma_count_quotes_quoted(s@);
}

impl SqlText for SqlValue {
    open spec fn sql_text(&self) -> Seq<char> {
        value_text(*self)
    }

    fn to_sql_text(&self) -> (r: String) {
        self.to_sql()
    }
}

} // verus!
