//! Builders for horizontal (row-wise) operations of a lazy expression
//! language: fold, reduce, cumulative fold/reduce, and the built-in
//! horizontal aggregates (any/all, min/max, sum/mean, coalesce).
//!
//! The builders only describe computation: each returns an expression-tree
//! node carrying its inputs, its output-type resolver and the
//! evaluation-policy descriptor the executor must honor.

pub mod accum;
pub mod agg;
pub mod builders;
pub mod column;
pub mod dtype;
pub mod error;
pub mod eval;
pub mod expr;
pub mod laws;
pub mod options;
pub mod resolver;
