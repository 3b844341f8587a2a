//! The expression tree: leaves, anonymous-function nodes carrying a
//! user-supplied combining operation, and named-function nodes carrying a
//! built-in operation tag.

use vstd::prelude::*;
use crate::column::{ColModel, Column};
use crate::error::ExprError;
use crate::options::FunctionOptions;

verus! {

/// A user-supplied binary combining operation `f(acc, next)`.
///
/// Returning `Ok(None)` declines to update the accumulator (an identity
/// step); returning an error aborts the whole accumulation. An
/// implementation must be safe to invoke from multiple worker threads
/// concurrently and repeatedly: it must be pure with respect to any state
/// shared outside its own captured environment, and must not rely on any
/// invocation order across groups. It receives its columns by value
/// (cheaply duplicated shares) and may freely rename the column it
/// returns.
pub trait ColumnCombiner: Sized + Send + Sync {
    fn combine(&self, acc: Column, next: Column) -> Result<Option<Column>, ExprError>;
}

/// How an anonymous accumulation node drives its combining operation.
#[derive(Clone, Copy, Debug, PartialEq, Eq, Structural)]
pub enum AccumKind {
    /// Seed from a separate initial column carried as the last input;
    /// the final accumulator is the result.
    Fold,
    /// Seed from the first input column; the final accumulator is the
    /// result. Evaluating over zero inputs fails.
    Reduce,
    /// As `Fold`, but record a snapshot of the accumulator after every
    /// updating step into a struct-shaped result; `include_init` records
    /// the seed as the first snapshot.
    CumFold { include_init: bool },
    /// As `Reduce`, but record the accumulator after every step (the seed
    /// counts as step zero) into a struct-shaped result.
    CumReduce,
}

/// The opaque computation carried by an anonymous-function node: a
/// combining operation together with the accumulation shape driving it.
pub struct ColumnUdf<C> {
    pub kind: AccumKind,
    pub combiner: C,
}

/// An output-type resolver: computes the result schema of a function node
/// from the schemas of its inputs, without touching data.
#[derive(Clone, Copy, Debug, PartialEq, Eq, Structural)]
pub enum GetOutput {
    /// Output type is the left-to-right supertype fold over all input
    /// types; output name is the first input's name.
    SuperType,
    /// Output is a struct-shaped field: one member per input, each named
    /// after its source but typed with the one common supertype.
    CumFoldFields,
}

/// The tag of a built-in horizontal operation; the executor dispatches on
/// it, no closure is carried.
#[derive(Clone, Copy, Debug, PartialEq, Eq, Structural)]
pub enum FunctionExpr {
    AllHorizontal,
    AnyHorizontal,
    MaxHorizontal,
    MinHorizontal,
    SumHorizontal { ignore_nulls: bool },
    MeanHorizontal { ignore_nulls: bool },
    Coalesce,
}

/// One node of the expression tree. Nodes are immutable once built:
/// builders embed input expressions by value and never hand them back.
pub enum Expr<C> {
    /// A leaf that evaluates to a fixed column.
    Leaf(Column),
    /// A deferred accumulation over the input expressions' columns.
    AnonymousFunction {
        input: Vec<Expr<C>>,
        function: ColumnUdf<C>,
        output_type: GetOutput,
        options: FunctionOptions,
    },
    /// A built-in operation over the input expressions' columns.
    Function { input: Vec<Expr<C>>, function: FunctionExpr, options: FunctionOptions },
}

impl<C> Expr<C> {
    /// Whether every expression of `s` is a leaf.
    pub open spec fn all_leaves(s: Seq<Expr<C>>) -> bool {
        forall|i: int| 0 <= i < s.len() ==> (#[trigger] s[i]) is Leaf
    }

    /// The columns carried by a sequence of leaves.
    pub open spec fn leaf_cols(s: Seq<Expr<C>>) -> Seq<ColModel> {
        s.map_values(|e: Expr<C>| (e->Leaf_0)@)
    }
}

} // verus!
