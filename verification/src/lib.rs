//! Typed filter predicates rendered deterministically into SQL text.

pub mod command;
pub mod data_type;
pub mod error;
pub mod field;
pub mod filter;
pub mod generate;
pub mod laws;
pub mod managed;
pub mod metadata;
pub mod naming;
pub mod output;
pub mod predicate;
pub mod query_builder;
pub mod query_set;
pub mod replay;
pub mod text;
pub mod traits;
pub mod type_model;
pub mod var_char;
pub mod where_cond;
