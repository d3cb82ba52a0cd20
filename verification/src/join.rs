//! Join-list bookkeeping: a consumer that owns a list of join entries,
//! each with an optional `ON` condition rendered by the predicate engine.

use crate::condition::{cond_text, push_condition, Condition};
use crate::text::{joined_text, push_joined, SqlText};
use vstd::prelude::*;

verus! {

/// The four join kinds.
pub enum JoinType {
    Inner,
    Outer,
    Left,
    Right,
}

/// One join: a table, the join kind, and an optional `ON` condition.
pub struct JoinEntry {
    pub table: String,
    pub join_type: JoinType,
    pub on: Option<Condition>,
}

/// The SQL keyword of a join kind.
pub open spec fn join_kw(t: JoinType) -> Seq<char> {
    match t {
        JoinType::Inner => ("INNER JOIN")@,
        JoinType::Outer => ("OUTER JOIN")@,
        JoinType::Left => ("LEFT JOIN")@,
        JoinType::Right => ("RIGHT JOIN")@,
    }
}

/// The SQL text of one join entry: the keyword, the table, and the
/// rendered condition — empty text when there is none.
pub open spec fn join_entry_text(e: JoinEntry) -> Seq<char> {
    join_kw(e.join_type) + (" ")@ + e.table@ + (" ")@ + (match e.on {
        Option::None => Seq::<char>::empty(),
        Option::Some(c) => cond_text(c),
    })
}

impl SqlText for JoinEntry {
    open spec fn sql_text(&self) -> Seq<char> {
        join_entry_text(*self)
    }

    fn to_sql_text(&self) -> (r: String) {
        let mut out = String::new();
        match self.join_type {
            JoinType::Inner => out.append("INNER JOIN"),
            JoinType::Outer => out.append("OUTER JOIN"),
            JoinType::Left => out.append("LEFT JOIN"),
            JoinType::Right => out.append("RIGHT JOIN"),
        }
        out.append(" ");
        out.append(self.table.as_str());
        out.append(" ");
        match &self.on {
            None => {},
            Some(c) => push_condition(c, &mut out),
        }
        proof {
            assert(out@ =~= join_entry_text(*self));
        }
        out
    }
}

/// A consumer that accumulates join entries and renders them.
///
/// Implementers provide the storage hooks; the chaining and rendering
/// methods are supplied here and verified against those hooks' contracts.
pub trait Join {
    /// The join entries held, oldest first.
    spec fn joins_view(&self) -> Seq<JoinEntry>;

    /// Appends one entry to the held list.
    fn set_join(&mut self, entry: JoinEntry)
        ensures
            final(self).joins_view() == old(self).joins_view().push(entry),
    ;

    /// The held entries.
    fn get_join(&self) -> (r: &Vec<JoinEntry>)
        ensures
            r@ == self.joins_view(),
    ;

    /// Appends an `INNER JOIN` of `table_to_join` on `condition`.
    fn inner_join(&mut self, table_to_join: &str, condition: Option<Condition>)
        ensures
            final(self).joins_view().len() == old(self).joins_view().len() + 1,
            final(self).joins_view().drop_last() == old(self).joins_view(),
            final(self).joins_view().last().table@ == table_to_join@,
            final(self).joins_view().last().join_type is Inner,
            final(self).joins_view().last().on == condition,
    {
        let entry = JoinEntry {
            table: table_to_join.to_owned(),
            join_type: JoinType::Inner,
            on: condition,
        };
        self.set_join(entry);
        proof {
            assert(old(self).joins_view().push(entry).drop_last() =~= old(self).joins_view());
        }
    }

    /// Appends an `OUTER JOIN` of `table_to_join` on `condition`.
    fn outer_join(&mut self, table_to_join: &str, condition: Option<Condition>)
        ensures
            final(self).joins_view().len() == old(self).joins_view().len() + 1,
            final(self).joins_view().drop_last() == old(self).joins_view(),
            final(self).joins_view().last().table@ == table_to_join@,
            final(self).joins_view().last().join_type is Outer,
            final(self).joins_view().last().on == condition,
    {
        let entry = JoinEntry {
            table: table_to_join.to_owned(),
            join_type: JoinType::Outer,
            on: condition,
        };
        self.set_join(entry);
        proof {
            assert(old(self).joins_view().push(entry).drop_last() =~= old(self).joins_view());
        }
    }

    /// Appends a `LEFT JOIN` of `table_to_join` on `condition`.
    fn left_join(&mut self, table_to_join: &str, condition: Option<Condition>)
        ensures
            final(self).joins_view().len() == old(self).joins_view().len() + 1,
            final(self).joins_view().drop_last() == old(self).joins_view(),
            final(self).joins_view().last().table@ == table_to_join@,
            final(self).joins_view().last().join_type is Left,
            final(self).joins_view().last().on == condition,
    {
        let entry = JoinEntry {
            table: table_to_join.to_owned(),
            join_type: JoinType::Left,
            on: condition,
        };
        self.set_join(entry);
        proof {
            assert(old(self).joins_view().push(entry).drop_last() =~= old(self).joins_view());
        }
    }

    /// Appends a `RIGHT JOIN` of `table_to_join` on `condition`.
    fn right_join(&mut self, table_to_join: &str, condition: Option<Condition>)
        ensures
            final(self).joins_view().len() == old(self).joins_view().len() + 1,
            final(self).joins_view().drop_last() == old(self).joins_view(),
            final(self).joins_view().last().table@ == table_to_join@,
            final(self).joins_view().last().join_type is Right,
            final(self).joins_view().last().on == condition,
    {
        let entry = JoinEntry {
            table: table_to_join.to_owned(),
            join_type: JoinType::Right,
            on: condition,
        };
        self.set_join(entry);
        proof {
            assert(old(self).joins_view().push(entry).drop_last() =~= old(self).joins_view());
        }
    }

    /// Renders all held joins, space-separated; nothing when the list is
    /// empty, so callers can omit the clause.
    fn build_join(&self) -> (r: Option<String>)
        ensures
            r is Some <==> self.joins_view().len() > 0,
            r matches Some(s) ==> s@ == joined_text(self.joins_view(), (" ")@),
    {
        let joins = self.get_join();
        if joins.len() == 0 {
            None
        } else {
            let mut out = String::new();
            push_joined(joins, " ", &mut out);
            proof {
                assert(Seq::<char>::empty() + joined_text(self.joins_view(), (" ")@)
                    =~= joined_text(self.joins_view(), (" ")@));
            }
            Some(out)
        }
    }
}

} // verus!
