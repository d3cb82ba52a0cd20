//! A programmatic SQL query builder.
//!
//! The heart of the crate is a recursive boolean-condition tree
//! ([`condition::Condition`]) over SQL literal values ([`value::SqlValue`]),
//! together with a deterministic, fully parenthesized rendering to SQL text
//! and an accumulator protocol that folds successive conditions into one
//! tree by implicit `AND` or explicit `OR` chaining.

pub mod text;
pub mod value;
pub mod condition;
pub mod accumulator;
pub mod where_action_builder;
pub mod join;
pub mod group_by;
pub mod order_by;
pub mod select;
pub mod query;
pub mod parenthesization;
