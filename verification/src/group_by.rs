//! Grouping bookkeeping: a consumer that owns a group-by field list and an
//! optional `HAVING` condition rendered by the predicate engine.

use crate::condition::{cond_text, Condition};
use crate::text::{list_text, push_list};
use vstd::prelude::*;

verus! {

/// A consumer that accumulates group-by fields and a having condition.
///
/// Implementers provide the storage hooks; the chaining and rendering
/// methods are supplied here and verified against those hooks' contracts.
pub trait GroupBy: Sized {
    /// The group-by fields held, in order.
    spec fn group_view(&self) -> Seq<String>;

    /// The held having condition, if any.
    spec fn having_view(&self) -> Option<Condition>;

    /// The held group-by fields.
    fn get_group(&self) -> (r: &Vec<String>)
        ensures
            r@ == self.group_view(),
    ;

    /// Replaces the held group-by fields.
    fn set_group(&mut self, group: Vec<String>)
        ensures
            final(self).group_view() == group@,
            final(self).having_view() == old(self).having_view(),
    ;

    /// The held having condition.
    fn get_having_condition(&self) -> (r: Option<&Condition>)
        ensures
            r is Some <==> self.having_view() is Some,
            r matches Some(c) ==> self.having_view() matches Some(h) && *c == h,
    ;

    /// Replaces the held having condition.
    fn set_having_condition(&mut self, condition: Condition)
        ensures
            final(self).having_view() matches Some(c) && c == condition,
            final(self).group_view() == old(self).group_view(),
    ;

    /// Groups by a single field, replacing any held field list.
    fn group_by_field(&mut self, field: &str) -> (ret: &mut Self)
        ensures
            ret.group_view().len() == 1,
            ret.group_view()[0]@ == field@,
            ret.having_view() == old(self).having_view(),
            *final(self) == *final(ret),
    {
        self.set_group(vec![field.to_owned()]);
        self
    }

    /// Renders `GROUP BY` and `HAVING`; nothing when either the having
    /// condition or the field list is absent, so callers can omit the
    /// clause.
    fn build_group_by(&self) -> (r: Option<String>)
        ensures
            r is Some <==> (self.having_view() is Some && self.group_view().len() > 0),
            r matches Some(s) ==> self.having_view() matches Some(h) && s@ == ("GROUP BY ")@
                + list_text(self.group_view()) + (" HAVING ")@ + cond_text(h),
    {
        match self.get_having_condition() {
            None => None,
            Some(c) => {
                let having = c.build_conditions().unwrap();
                let fields = self.get_group();
                if fields.len() == 0 {
                    None
                } else {
                    let mut out = String::new();
                    out.append("GROUP BY ");
                    push_list(fields, &mut out);
                    out.append(" HAVING ");
                    out.append(having.as_str());
                    proof {
                        assert(out@ =~= ("GROUP BY ")@ + list_text(self.group_view())
                            + (" HAVING ")@ + cond_text(self.having_view().unwrap()));
                    }
                    Some(out)
                }
            },
        }
    }

    /// Stores `condition` as the having condition.
    fn having(&mut self, condition: Condition) -> (ret: &Self)
        ensures
            ret.having_view() matches Some(c) && c == condition,
            ret.group_view() == old(self).group_view(),
            *ret == *final(self),
    {
        self.set_having_condition(condition);
        self
    }

    /// Groups by the given fields, replacing any held field list.
    fn group_by_fields(&mut self, fields: Vec<String>) -> (ret: &mut Self)
        ensures
            ret.group_view() == fields@,
            ret.having_view() == old(self).having_view(),
            *final(self) == *final(ret),
    {
        self.set_group(fields);
        self
    }
}

} // verus!
