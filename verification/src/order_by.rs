//! Ordering bookkeeping: a consumer that owns a list of order-by entries.

use crate::text::{dec_rep, dec_string_u128};
use vstd::prelude::*;

verus! {

/// The direction of an ordering entry.
pub enum Order {
    Asc,
    Desc,
}

/// A consumer that accumulates order-by entries.
///
/// Implementers provide the storage hooks; the chaining methods are
/// supplied here and verified against those hooks' contracts.
pub trait OrderBy: Sized {
    /// The ordering entries held, in order.
    spec fn order_view(&self) -> Seq<(String, Order)>;

    /// The held ordering entries.
    fn get_order(&self) -> (r: &Vec<(String, Order)>)
        ensures
            r@ == self.order_view(),
    ;

    /// Replaces the held ordering entries.
    fn set_order(&mut self, group: Vec<(String, Order)>)
        ensures
            final(self).order_view() == group@,
    ;

    /// Replaces the held ordering with a single raw expression, taken
    /// ascending.
    fn raw_order(&mut self, raw: &str) -> (ret: &mut Self)
        ensures
            ret.order_view().len() == 1,
            ret.order_view()[0].0@ == raw@,
            ret.order_view()[0].1 is Asc,
            *final(self) == *final(ret),
    ;

    /// Placeholder kept for interface compatibility: leaves the held
    /// ordering untouched.
    fn order_by_expression(&mut self, exp: &str) -> (ret: &mut Self)
        ensures
            *ret == *old(self),
            *final(self) == *final(ret),
    {
        self
    }

    /// Orders by a result row number, ascending.
    fn order_by_row_asc(&mut self, row: u32) -> (ret: &mut Self)
        ensures
            ret.order_view().len() == 1,
            ret.order_view()[0].0@ == dec_rep(row as nat),
            ret.order_view()[0].1 is Asc,
            *final(self) == *final(ret),
    {
        self.set_order(vec![(dec_string_u128(row as u128), Order::Asc)]);
        self
    }

    /// Orders by a result row number with the given direction.
    fn order_by_row(&mut self, row: u32, order: Order) -> (ret: &mut Self)
        ensures
            ret.order_view().len() == 1,
            ret.order_view()[0].0@ == dec_rep(row as nat),
            ret.order_view()[0].1 == order,
            *final(self) == *final(ret),
    {
        self.set_order(vec![(dec_string_u128(row as u128), order)]);
        self
    }

    /// Orders by a result row number, descending.
    fn order_by_row_desc(&mut self, row: u32) -> (ret: &mut Self)
        ensures
            ret.order_view().len() == 1,
            ret.order_view()[0].0@ == dec_rep(row as nat),
            ret.order_view()[0].1 is Desc,
            *final(self) == *final(ret),
    {
        self.set_order(vec![(dec_string_u128(row as u128), Order::Desc)]);
        self
    }

    /// Orders by a field, ascending.
    fn order_by_field_asc(&mut self, field: &str) -> (ret: &mut Self)
        ensures
            ret.order_view().len() == 1,
            ret.order_view()[0].0@ == field@,
            ret.order_view()[0].1 is Asc,
            *final(self) == *final(ret),
    {
        self.set_order(vec![(field.to_owned(), Order::Asc)]);
        self
    }

    /// Orders by a field, descending.
    fn order_by_field_desc(&mut self, field: &str) -> (ret: &mut Self)
        ensures
            ret.order_view().len() == 1,
            ret.order_view()[0].0@ == field@,
            ret.order_view()[0].1 is Desc,
            *final(self) == *final(ret),
    {
        self.set_order(vec![(field.to_owned(), Order::Desc)]);
        self
    }

    /// Orders by a field with the given direction.
    fn order_by_field(&mut self, field: &str, order: Order) -> (ret: &mut Self)
        ensures
            ret.order_view().len() == 1,
            ret.order_view()[0].0@ == field@,
            ret.order_view()[0].1 == order,
            *final(self) == *final(ret),
    {
        self.set_order(vec![(field.to_owned(), order)]);
        self
    }

    /// Orders by the given fields, replacing any held ordering.
    fn order_by_fields(&mut self, fields: Vec<(String, Order)>) -> (ret: &mut Self)
        ensures
            ret.order_view() == fields@,
            *final(self) == *final(ret),
    {
        self.set_order(fields);
        self
    }
}

} // verus!
