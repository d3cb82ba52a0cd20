//! The clause consumers: types that each own one condition accumulator
//! and render their own clause around the predicate engine's text.

use crate::accumulator::ConditionAccumulator;
use crate::condition::{cond_text, Condition};
use crate::group_by::GroupBy;
use crate::join::{Join, JoinEntry};
use crate::order_by::{Order, OrderBy};
use crate::text::{joined_text, push_joined, SqlText};
use vstd::prelude::*;

verus! {

/// The capability a clause consumer exposes to the predicate engine:
/// it holds zero or one condition.
pub trait Predicate {
    /// The held condition, if any.
    spec fn condition_view(&self) -> Option<Condition>;

    /// Replaces the held condition.
    fn set_condition(&mut self, condition: Condition)
        ensures
            final(self).condition_view() matches Some(c) && c == condition,
    ;

    /// The held condition.
    fn get_condition(&self) -> (r: Option<&Condition>)
        ensures
            r is Some <==> self.condition_view() is Some,
            r matches Some(c) ==> self.condition_view() matches Some(h) && *c == h,
    ;
}

/// A single query action: a table, plain selected fields, and one
/// optional filter condition held through the accumulator protocol.
pub struct QueryActionBuilder {
    pub table: String,
    pub fields: Vec<String>,
    pub conditions: ConditionAccumulator,
    pub all: bool,
}

impl Default for QueryActionBuilder {
    /// A builder with an empty table name, no fields and no condition.
    fn default() -> (r: Self)
        ensures
            r.table@.len() == 0,
            r.fields@.len() == 0,
            r.conditions.condition is None,
            r.all == false,
    {
        QueryActionBuilder {
            table: String::new(),
            fields: Vec::new(),
            conditions: ConditionAccumulator::new(),
            all: false,
        }
    }
}

impl QueryActionBuilder {
    /// A fresh builder, as [`Default::default`] yields it.
    pub fn new() -> (r: Self)
        ensures
            r.table@.len() == 0,
            r.fields@.len() == 0,
            r.conditions.condition is None,
            r.all == false,
    {
        Self::default()
    }
}

impl Predicate for QueryActionBuilder {
    open spec fn condition_view(&self) -> Option<Condition> {
        self.conditions.condition
    }

    fn set_condition(&mut self, condition: Condition) {
        self.conditions.condition = Some(condition);
    }

    fn get_condition(&self) -> (r: Option<&Condition>) {
        self.conditions.condition.as_ref()
    }
}

/// A field selected with an alias renders as `field as alias`.
impl SqlText for (String, String) {
    open spec fn sql_text(&self) -> Seq<char> {
        self.0@ + (" as ")@ + self.1@
    }

    fn to_sql_text(&self) -> (r: String) {
        let mut out = String::new();
        out.append(self.0.as_str());
        out.append(" as ");
        out.append(self.1.as_str());
        proof {
            assert(out@ =~= self.sql_text());
        }
        out
    }
}

/// A full select-statement builder: it owns its field, join, group and
/// order lists, and one condition accumulator per conditional clause.
pub struct QueryBuilder {
    pub table: String,
    pub fields: Vec<(String, String)>,
    pub conditions: ConditionAccumulator,
    pub joins: Vec<JoinEntry>,
    pub groups: Vec<String>,
    pub having: ConditionAccumulator,
    pub order: Vec<(String, Order)>,
}

impl Default for QueryBuilder {
    /// A builder with nothing selected, joined, grouped or filtered.
    fn default() -> (r: Self)
        ensures
            r.table@.len() == 0,
            r.fields@.len() == 0,
            r.conditions.condition is None,
            r.joins@.len() == 0,
            r.groups@.len() == 0,
            r.having.condition is None,
            r.order@.len() == 0,
    {
        QueryBuilder {
            table: String::new(),
            fields: Vec::new(),
            conditions: ConditionAccumulator::new(),
            joins: Vec::new(),
            groups: Vec::new(),
            having: ConditionAccumulator::new(),
            order: Vec::new(),
        }
    }
}

impl QueryBuilder {
    /// A fresh builder, as [`Default::default`] yields it.
    pub fn new() -> (r: Self)
        ensures
            r.table@.len() == 0,
            r.fields@.len() == 0,
            r.conditions.condition is None,
            r.joins@.len() == 0,
            r.groups@.len() == 0,
            r.having.condition is None,
            r.order@.len() == 0,
    {
        Self::default()
    }

    /// Replaces the target table name.
    pub fn set_table(&mut self, table: &str)
        ensures
            *final(self) == (QueryBuilder { table: final(self).table, ..*old(self) }),
            final(self).table@ == table@,
    {
        self.table = table.to_owned();
    }

    /// The target table name.
    pub fn get_table(&self) -> (r: String)
        ensures
            r@ == self.table@,
    {
        self.table.clone()
    }

    /// Sets the target table and hands the builder back for chaining.
    pub fn table(&mut self, table: &str) -> (ret: &mut Self)
        ensures
            ret.table@ == table@,
            *ret == (QueryBuilder { table: ret.table, ..*old(self) }),
            *final(self) == *final(ret),
    {
        self.set_table(table);
        self
    }

    /// Replaces the selected field list; each entry is a field with its
    /// alias.
    pub fn set_fields(&mut self, fields: Vec<(String, String)>)
        ensures
            *final(self) == (QueryBuilder { fields, ..*old(self) }),
    {
        self.fields = fields;
    }

    /// The selected field list.
    pub fn get_fields(&self) -> (r: &Vec<(String, String)>)
        ensures
            r@ == self.fields@,
    {
        &self.fields
    }

    /// Stores `condition` as the `WHERE` filter.
    pub fn where_cond(&mut self, condition: Condition)
        ensures
            final(self).condition_view() matches Some(c) && c == condition,
    {
        self.set_condition(condition);
    }

    /// Appends one field selected under an alias.
    pub fn select_alias_field(&mut self, field: &str, alias: &str) -> (ret: &Self)
        ensures
            ret.fields@.len() == old(self).fields@.len() + 1,
            ret.fields@.drop_last() == old(self).fields@,
            ret.fields@.last().0@ == field@,
            ret.fields@.last().1@ == alias@,
            *ret == (QueryBuilder { fields: ret.fields, ..*old(self) }),
            *ret == *final(self),
    {
        self.fields.push((field.to_owned(), alias.to_owned()));
        proof {
            assert(self.fields@.drop_last() =~= old(self).fields@);
        }
        self
    }

    /// Appends each given field, selected under its own name.
    #[verifier::loop_isolation(false)]
    pub fn select_fields(&mut self, fields: &[&str]) -> (ret: &mut Self)
        ensures
            ret.fields@.len() == old(self).fields@.len() + fields@.len(),
            ret.fields@.take(old(self).fields@.len() as int) == old(self).fields@,
            forall|j: int|
                0 <= j < fields@.len() ==> {
                    &&& (#[trigger] ret.fields@[old(self).fields@.len() + j]).0@ == fields@[j]@
                    &&& ret.fields@[old(self).fields@.len() + j].1@ == fields@[j]@
                },
            *ret == (QueryBuilder { fields: ret.fields, ..*old(self) }),
            *final(self) == *final(ret),
    {
        let ghost base = self.fields@.len() as int;
        let mut i: usize = 0;
        while i < fields.len()
            invariant
                i <= fields@.len(),
                self.fields@.len() == base + i,
                self.fields@.take(base) == old(self).fields@,
                forall|j: int|
                    0 <= j < i ==> {
                        &&& (#[trigger] self.fields@[base + j]).0@ == fields@[j]@
                        &&& self.fields@[base + j].1@ == fields@[j]@
                    },
                *self == (QueryBuilder { fields: self.fields, ..*old(self) }),
            decreases fields@.len() - i,
        {
            let f = fields[i];
            self.fields.push((f.to_owned(), f.to_owned()));
            proof {
                assert(self.fields@.take(base) =~= old(self).fields@);
            }
            i = i + 1;
        }
        self
    }

    /// Collapses the selection to every column: the field list becomes a
    /// lone `*` entry with an empty alias, discarding what was selected.
    pub fn select_all_fields(&mut self) -> (ret: &Self)
        ensures
            ret.fields@.len() == 1,
            ret.fields@[0].0@ == ("*")@,
            ret.fields@[0].1@.len() == 0,
            *ret == (QueryBuilder { fields: ret.fields, ..*old(self) }),
            *ret == *final(self),
    {
        self.fields.clear();
        self.fields.push((String::from_str("*"), String::new()));
        self
    }

    /// Attaches an alias: to the `*` entry when every column is selected,
    /// otherwise to a placeholder entry put in front of the field list.
    pub fn alias(&mut self, alias: &str) -> (ret: &Self)
        ensures
            (old(self).fields@.len() > 0 && old(self).fields@[0].0@ == ("*")@) ==> {
                &&& ret.fields@.len() == old(self).fields@.len()
                &&& ret.fields@[0].0@ == old(self).fields@[0].0@
                &&& ret.fields@[0].1@ == alias@
                &&& ret.fields@.drop_first() == old(self).fields@.drop_first()
            },
            !(old(self).fields@.len() > 0 && old(self).fields@[0].0@ == ("*")@) ==> {
                &&& ret.fields@.len() == old(self).fields@.len() + 1
                &&& ret.fields@[0].0@ == ("#**#")@
                &&& ret.fields@[0].1@ == alias@
                &&& ret.fields@.drop_first() == old(self).fields@
            },
            *ret == (QueryBuilder { fields: ret.fields, ..*old(self) }),
            *ret == *final(self),
    {
        let star = String::from_str("*");
        if self.fields.len() > 0 && self.fields[0].0 == star {
            let mut item = self.fields.remove(0);
            item.1 = alias.to_owned();
            self.fields.insert(0, item);
            proof {
                assert(self.fields@.drop_first() =~= old(self).fields@.drop_first());
            }
        } else {
            self.fields.insert(0, (String::from_str("#**#"), alias.to_owned()));
            proof {
                assert(self.fields@.drop_first() =~= old(self).fields@);
            }
        }
        self
    }

    /// Renders the select statement: the field list (or `*`), the table,
    /// and — only when a condition is held — the `WHERE` clause.  Nothing
    /// when no field is selected.
    pub fn build_select(&self) -> (r: Option<String>)
        ensures
            r is Some <==> self.fields@.len() > 0,
            r matches Some(s) ==> s@ == ("SELECT ")@ + (if self.fields@[0].0@ == ("*")@ {
                ("*")@
            } else {
                joined_text(self.fields@, (", ")@)
            }) + (" FROM ")@ + self.table@ + (match self.conditions.condition {
                Option::None => Seq::<char>::empty(),
                Option::Some(c) => (" WHERE ")@ + cond_text(c),
            }),
    {
        if self.fields.len() == 0 {
            return None;
        }
        let star = String::from_str("*");
        let mut out = String::new();
        out.append("SELECT ");
        if self.fields[0].0 == star {
            out.append("*");
        } else {
            push_joined(&self.fields, ", ", &mut out);
        }
        out.append(" FROM ");
        out.append(self.table.as_str());
        match &self.conditions.condition {
            None => {},
            Some(c) => {
                out.append(" WHERE ");
                let cs = c.build_conditions().unwrap();
                out.append(cs.as_str());
            },
        }
        proof {
            assert(out@ =~= ("SELECT ")@ + (if self.fields@[0].0@ == ("*")@ {
                ("*")@
            } else {
                joined_text(self.fields@, (", ")@)
            }) + (" FROM ")@ + self.table@ + (match self.conditions.condition {
                Option::None => Seq::<char>::empty(),
                Option::Some(c) => (" WHERE ")@ + cond_text(c),
            }));
        }
        Some(out)
    }
}

impl Predicate for QueryBuilder {
    open spec fn condition_view(&self) -> Option<Condition> {
        self.conditions.condition
    }

    fn set_condition(&mut self, condition: Condition) {
        self.conditions.condition = Some(condition);
    }

    fn get_condition(&self) -> (r: Option<&Condition>) {
        self.conditions.condition.as_ref()
    }
}

impl Join for QueryBuilder {
    open spec fn joins_view(&self) -> Seq<JoinEntry> {
        self.joins@
    }

    fn set_join(&mut self, entry: JoinEntry) {
        self.joins.push(entry);
    }

    fn get_join(&self) -> (r: &Vec<JoinEntry>) {
        &self.joins
    }
}

impl GroupBy for QueryBuilder {
    open spec fn group_view(&self) -> Seq<String> {
        self.groups@
    }

    open spec fn having_view(&self) -> Option<Condition> {
        self.having.condition
    }

    fn get_group(&self) -> (r: &Vec<String>) {
        &self.groups
    }

    fn set_group(&mut self, group: Vec<String>) {
        self.groups = group;
    }

    fn get_having_condition(&self) -> (r: Option<&Condition>) {
        self.having.condition.as_ref()
    }

    fn set_having_condition(&mut self, condition: Condition) {
        self.having.condition = Some(condition);
    }
}

impl OrderBy for QueryBuilder {
    open spec fn order_view(&self) -> Seq<(String, Order)> {
        self.order@
    }

    fn get_order(&self) -> (r: &Vec<(String, Order)>) {
        &self.order
    }

    fn set_order(&mut self, group: Vec<(String, Order)>) {
        self.order = group;
    }

    fn raw_order(&mut self, raw: &str) -> (ret: &mut Self) {
        self.order = vec![(raw.to_owned(), Order::Asc)];
        self
    }
}

} // verus!
