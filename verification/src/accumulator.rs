//! The builder-fold protocol: a stateful holder of at most one
//! [`Condition`] that folds successive conditions into the held tree.
//!
//! Folding is monotonic: once a condition is present, every later fold
//! strictly wraps the previous whole tree as the left operand of a new
//! root; no operation ever removes or descends into the existing tree.

use crate::condition::{cond_text, Condition};
use vstd::prelude::*;

verus! {

/// What a fold step does: with nothing held the new condition is stored as
/// it is; with a tree held, the result is a new `And` root wrapping the
/// held tree on the left and the new condition on the right.
pub open spec fn folds_to_and(held: Option<Condition>, new: Condition, result: Condition) -> bool {
    match held {
        Option::None => result == new,
        Option::Some(c) => result matches Condition::And(l, r) && *l == c && *r == new,
    }
}

/// The `Or` counterpart of [`folds_to_and`].
pub open spec fn folds_to_or(held: Option<Condition>, new: Condition, result: Condition) -> bool {
    match held {
        Option::None => result == new,
        Option::Some(c) => result matches Condition::Or(l, r) && *l == c && *r == new,
    }
}

/// A stateful holder of at most one condition tree.
pub struct ConditionAccumulator {
    /// The held condition; absent until the first fold.
    pub condition: Option<Condition>,
}

impl ConditionAccumulator {
    /// A fresh accumulator holding nothing.
    pub fn new() -> (r: Self)
        ensures
            r.condition is None,
    {
        ConditionAccumulator { condition: None }
    }

    /// Folds `new` into the held tree by `AND`; stores it as is when
    /// nothing is held yet.
    pub fn and_with(&mut self, new: Condition)
        ensures
            final(self).condition matches Some(t) && folds_to_and(old(self).condition, new, t),
    {
        match self.condition.take() {
            None => {
                self.condition = Some(new);
            },
            Some(c) => {
                self.condition = Some(Condition::And(Box::new(c), Box::new(new)));
            },
        }
    }

    /// Folds `new` into the held tree by `OR`; stores it as is when
    /// nothing is held yet.  There is no "OR with nothing" error state.
    pub fn or_with(&mut self, new: Condition)
        ensures
            final(self).condition matches Some(t) && folds_to_or(old(self).condition, new, t),
    {
        match self.condition.take() {
            None => {
                self.condition = Some(new);
            },
            Some(c) => {
                self.condition = Some(Condition::Or(Box::new(c), Box::new(new)));
            },
        }
    }

    /// Renders the held tree; yields nothing — not an empty string — when
    /// no condition has been accumulated, so callers can omit the clause.
    pub fn render(&self) -> (r: Option<String>)
        ensures
            self.condition is None <==> r is None,
            self.condition matches Some(c) ==> r matches Some(s) && s@ == cond_text(c),
    {
        match &self.condition {
            None => None,
            Some(c) => c.build_conditions(),
        }
    }
}

/// Fold associativity of the accumulator: AND-folding `a` and then `b`
/// into a fresh accumulator yields a tree that renders exactly as the
/// directly built combinator `And(a, b)` renders.
pub proof fn lemma_fold_associativity(a: Condition, b: Condition, t1: Condition, t2: Condition, u: Condition)
    requires
        folds_to_and(None, a, t1),
        folds_to_and(Some(t1), b, t2),
        u matches Condition::And(l, r) && *l == a && *r == b,
    ensures
        cond_text(t2) == cond_text(u),
{
}

/// The `Or` counterpart of [`lemma_fold_associativity`].
pub proof fn lemma_or_fold_associativity(a: Condition, b: Condition, t1: Condition, t2: Condition, u: Condition)
    requires
        folds_to_or(None, a, t1),
        folds_to_or(Some(t1), b, t2),
        u matches Condition::Or(l, r) && *l == a && *r == b,
    ensures
        cond_text(t2) == cond_text(u),
{
}

} // verus!
