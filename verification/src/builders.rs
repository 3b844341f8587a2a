//! The public builders: accumulator fold/reduce nodes and the built-in
//! horizontal aggregate nodes.
//!
//! Builders only describe computation. The accumulator builders never fail
//! at construction: `reduce`/`cum_reduce` defer their empty-input failure
//! to evaluation, because wildcard expansion may change the input count at
//! plan time. The built-in aggregates (except `coalesce`) instead check
//! eagerly, since their inputs are assumed fully expanded.

use vstd::prelude::*;
use crate::error::ExprError;
use crate::expr::{AccumKind, ColumnCombiner, ColumnUdf, Expr, FunctionExpr, GetOutput};
use crate::options::{
    ApplyOptions, CastOptions, FunctionFlags, FunctionOptions, OpLabel,
};

verus! {

/// Policy of the accumulator builders: group-wise, wildcard expansion,
/// one scalar result per group.
pub open spec fn accumulator_options(label: OpLabel) -> FunctionOptions {
    FunctionOptions {
        collect_groups: ApplyOptions::GroupWise,
        flags: FunctionFlags {
            wildcard_expansion: true,
            returns_scalar: true,
            allow_empty_inputs: false,
            allow_rename: false,
        },
        cast_options: CastOptions::Passthrough,
        fmt_str: label,
    }
}

/// Policy of `all_horizontal`/`any_horizontal`: the group-wise default,
/// with wildcard expansion, tolerating empty inputs after a later rewrite.
pub open spec fn boolean_horizontal_options() -> FunctionOptions {
    FunctionOptions {
        collect_groups: ApplyOptions::GroupWise,
        flags: FunctionFlags {
            wildcard_expansion: true,
            returns_scalar: false,
            allow_empty_inputs: true,
            allow_rename: false,
        },
        cast_options: CastOptions::Passthrough,
        fmt_str: OpLabel::Unset,
    }
}

/// Policy of `max_horizontal`/`min_horizontal`: element-wise, wildcard
/// expansion with the scalar flag explicitly cleared, rename allowed.
pub open spec fn minmax_horizontal_options() -> FunctionOptions {
    FunctionOptions {
        collect_groups: ApplyOptions::ElementWise,
        flags: FunctionFlags {
            wildcard_expansion: true,
            returns_scalar: false,
            allow_empty_inputs: false,
            allow_rename: true,
        },
        cast_options: CastOptions::Passthrough,
        fmt_str: OpLabel::Unset,
    }
}

/// Policy of `sum_horizontal`/`mean_horizontal`: element-wise, wildcard
/// expansion with the scalar flag explicitly cleared.
pub open spec fn summean_horizontal_options() -> FunctionOptions {
    FunctionOptions {
        collect_groups: ApplyOptions::ElementWise,
        flags: FunctionFlags {
            wildcard_expansion: true,
            returns_scalar: false,
            allow_empty_inputs: false,
            allow_rename: false,
        },
        cast_options: CastOptions::Passthrough,
        fmt_str: OpLabel::Unset,
    }
}

/// Policy of `coalesce`: element-wise, wildcard expansion, inputs coerced
/// to their common supertype before selection.
pub open spec fn coalesce_options() -> FunctionOptions {
    FunctionOptions {
        collect_groups: ApplyOptions::ElementWise,
        flags: FunctionFlags {
            wildcard_expansion: true,
            returns_scalar: false,
            allow_empty_inputs: false,
            allow_rename: false,
        },
        cast_options: CastOptions::CastToSupertypes,
        fmt_str: OpLabel::Unset,
    }
}

/// Accumulate over multiple columns horizontally, seeding from `acc`'s
/// column. `acc` is appended as the last input so it is evaluated
/// alongside the others, then taken off first at invocation time. Never
/// fails, at construction or at evaluation: the accumulator always exists.
pub fn fold_exprs<C: ColumnCombiner>(acc: Expr<C>, f: C, exprs: Vec<Expr<C>>) -> (r: Expr<C>)
    ensures
        r matches Expr::AnonymousFunction { input, function, output_type, options }
            && input@ == exprs@.push(acc)
            && function.kind == AccumKind::Fold
            && function.combiner == f
            && output_type == GetOutput::SuperType
            && options == accumulator_options(OpLabel::Fold),
{
    let mut input = exprs;
    input.push(acc);
    Expr::AnonymousFunction {
        input,
        function: ColumnUdf { kind: AccumKind::Fold, combiner: f },
        output_type: GetOutput::SuperType,
        options: FunctionOptions {
            collect_groups: ApplyOptions::GroupWise,
            flags: FunctionFlags {
                wildcard_expansion: true,
                returns_scalar: true,
                allow_empty_inputs: false,
                allow_rename: false,
            },
            cast_options: CastOptions::Passthrough,
            fmt_str: OpLabel::Fold,
        },
    }
}

/// Accumulate over multiple columns horizontally, seeding from the first
/// input's column. Construction never validates that `exprs` is
/// non-empty: evaluating the node over zero columns fails with a
/// computation error, since emptiness may depend on wildcard expansion
/// resolved only at plan time.
pub fn reduce_exprs<C: ColumnCombiner>(f: C, exprs: Vec<Expr<C>>) -> (r: Expr<C>)
    ensures
        r matches Expr::AnonymousFunction { input, function, output_type, options }
            && input@ == exprs@
            && function.kind == AccumKind::Reduce
            && function.combiner == f
            && output_type == GetOutput::SuperType
            && options == accumulator_options(OpLabel::Reduce),
{
    Expr::AnonymousFunction {
        input: exprs,
        function: ColumnUdf { kind: AccumKind::Reduce, combiner: f },
        output_type: GetOutput::SuperType,
        options: FunctionOptions {
            collect_groups: ApplyOptions::GroupWise,
            flags: FunctionFlags {
                wildcard_expansion: true,
                returns_scalar: true,
                allow_empty_inputs: false,
                allow_rename: false,
            },
            cast_options: CastOptions::Passthrough,
            fmt_str: OpLabel::Reduce,
        },
    }
}

/// As `reduce_exprs`, but every step's accumulator is recorded, renamed
/// after the input that produced the step, into a struct-shaped result;
/// the seed counts as step zero. Same deferred empty-input failure as
/// `reduce_exprs`.
pub fn cum_reduce_exprs<C: ColumnCombiner>(f: C, exprs: Vec<Expr<C>>) -> (r: Expr<C>)
    ensures
        r matches Expr::AnonymousFunction { input, function, output_type, options }
            && input@ == exprs@
            && function.kind == AccumKind::CumReduce
            && function.combiner == f
            && output_type == GetOutput::CumFoldFields
            && options == accumulator_options(OpLabel::CumReduce),
{
    Expr::AnonymousFunction {
        input: exprs,
        function: ColumnUdf { kind: AccumKind::CumReduce, combiner: f },
        output_type: GetOutput::CumFoldFields,
        options: FunctionOptions {
            collect_groups: ApplyOptions::GroupWise,
            flags: FunctionFlags {
                wildcard_expansion: true,
                returns_scalar: true,
                allow_empty_inputs: false,
                allow_rename: false,
            },
            cast_options: CastOptions::Passthrough,
            fmt_str: OpLabel::CumReduce,
        },
    }
}

/// As `fold_exprs`, but each updating step's accumulator is recorded,
/// renamed after the input that produced it, into a struct-shaped result.
/// With `include_init` the initial accumulator is recorded first;
/// without it, evaluation fails when no step records a snapshot.
pub fn cum_fold_exprs<C: ColumnCombiner>(
    acc: Expr<C>,
    f: C,
    exprs: Vec<Expr<C>>,
    include_init: bool,
) -> (r: Expr<C>)
    ensures
        r matches Expr::AnonymousFunction { input, function, output_type, options }
            && input@ == exprs@.push(acc)
            && function.kind == (AccumKind::CumFold { include_init })
            && function.combiner == f
            && output_type == GetOutput::CumFoldFields
            && options == accumulator_options(OpLabel::CumFold),
{
    let mut input = exprs;
    input.push(acc);
    Expr::AnonymousFunction {
        input,
        function: ColumnUdf { kind: AccumKind::CumFold { include_init }, combiner: f },
        output_type: GetOutput::CumFoldFields,
        options: FunctionOptions {
            collect_groups: ApplyOptions::GroupWise,
            flags: FunctionFlags {
                wildcard_expansion: true,
                returns_scalar: true,
                allow_empty_inputs: false,
                allow_rename: false,
            },
            cast_options: CastOptions::Passthrough,
            fmt_str: OpLabel::CumFold,
        },
    }
}

/// Create a node taking the bitwise-and of the elements in each row.
/// Fails eagerly when given no expressions: the number of output rows
/// would be unknowable.
pub fn all_horizontal<C: ColumnCombiner>(exprs: Vec<Expr<C>>) -> (r: Result<Expr<C>, ExprError>)
    ensures
        exprs@.len() == 0 ==> (r matches Err(e) && e == ExprError::EmptyInputs),
        exprs@.len() > 0 ==> (r matches Ok(n)
            && n matches Expr::Function { input, function, options }
            && input@ == exprs@
            && function == FunctionExpr::AllHorizontal
            && options == boolean_horizontal_options()),
{
    if exprs.len() == 0 {
        return Err(ExprError::EmptyInputs);
    }
    Ok(Expr::Function {
        input: exprs,
        function: FunctionExpr::AllHorizontal,
        options: FunctionOptions {
            collect_groups: ApplyOptions::GroupWise,
            flags: FunctionFlags {
                wildcard_expansion: true,
                returns_scalar: false,
                allow_empty_inputs: true,
                allow_rename: false,
            },
            cast_options: CastOptions::Passthrough,
            fmt_str: OpLabel::Unset,
        },
    })
}

/// Create a node taking the bitwise-or of the elements in each row.
/// Fails eagerly when given no expressions.
pub fn any_horizontal<C: ColumnCombiner>(exprs: Vec<Expr<C>>) -> (r: Result<Expr<C>, ExprError>)
    ensures
        exprs@.len() == 0 ==> (r matches Err(e) && e == ExprError::EmptyInputs),
        exprs@.len() > 0 ==> (r matches Ok(n)
            && n matches Expr::Function { input, function, options }
            && input@ == exprs@
            && function == FunctionExpr::AnyHorizontal
            && options == boolean_horizontal_options()),
{
    if exprs.len() == 0 {
        return Err(ExprError::EmptyInputs);
    }
    Ok(Expr::Function {
        input: exprs,
        function: FunctionExpr::AnyHorizontal,
        options: FunctionOptions {
            collect_groups: ApplyOptions::GroupWise,
            flags: FunctionFlags {
                wildcard_expansion: true,
                returns_scalar: false,
                allow_empty_inputs: true,
                allow_rename: false,
            },
            cast_options: CastOptions::Passthrough,
            fmt_str: OpLabel::Unset,
        },
    })
}

/// Create a node taking the maximum value per row. Fails eagerly when
/// given no expressions.
pub fn max_horizontal<C: ColumnCombiner>(exprs: Vec<Expr<C>>) -> (r: Result<Expr<C>, ExprError>)
    ensures
        exprs@.len() == 0 ==> (r matches Err(e) && e == ExprError::EmptyInputs),
        exprs@.len() > 0 ==> (r matches Ok(n)
            && n matches Expr::Function { input, function, options }
            && input@ == exprs@
            && function == FunctionExpr::MaxHorizontal
            && options == minmax_horizontal_options()),
{
    if exprs.len() == 0 {
        return Err(ExprError::EmptyInputs);
    }
    Ok(Expr::Function {
        input: exprs,
        function: FunctionExpr::MaxHorizontal,
        options: FunctionOptions {
            collect_groups: ApplyOptions::ElementWise,
            flags: FunctionFlags {
                wildcard_expansion: true,
                returns_scalar: false,
                allow_empty_inputs: false,
                allow_rename: true,
            },
            cast_options: CastOptions::Passthrough,
            fmt_str: OpLabel::Unset,
        },
    })
}

/// Create a node taking the minimum value per row. Fails eagerly when
/// given no expressions.
pub fn min_horizontal<C: ColumnCombiner>(exprs: Vec<Expr<C>>) -> (r: Result<Expr<C>, ExprError>)
    ensures
        exprs@.len() == 0 ==> (r matches Err(e) && e == ExprError::EmptyInputs),
        exprs@.len() > 0 ==> (r matches Ok(n)
            && n matches Expr::Function { input, function, options }
            && input@ == exprs@
            && function == FunctionExpr::MinHorizontal
            && options == minmax_horizontal_options()),
{
    if exprs.len() == 0 {
        return Err(ExprError::EmptyInputs);
    }
    Ok(Expr::Function {
        input: exprs,
        function: FunctionExpr::MinHorizontal,
        options: FunctionOptions {
            collect_groups: ApplyOptions::ElementWise,
            flags: FunctionFlags {
                wildcard_expansion: true,
                returns_scalar: false,
                allow_empty_inputs: false,
                allow_rename: true,
            },
            cast_options: CastOptions::Passthrough,
            fmt_str: OpLabel::Unset,
        },
    })
}

/// Sum all values horizontally across columns. `ignore_nulls` decides
/// whether a null excludes its position from the aggregate or poisons the
/// whole row. Fails eagerly when given no expressions.
pub fn sum_horizontal<C: ColumnCombiner>(exprs: Vec<Expr<C>>, ignore_nulls: bool) -> (r: Result<
    Expr<C>,
    ExprError,
>)
    ensures
        exprs@.len() == 0 ==> (r matches Err(e) && e == ExprError::EmptyInputs),
        exprs@.len() > 0 ==> (r matches Ok(n)
            && n matches Expr::Function { input, function, options }
            && input@ == exprs@
            && function == (FunctionExpr::SumHorizontal { ignore_nulls })
            && options == summean_horizontal_options()),
{
    if exprs.len() == 0 {
        return Err(ExprError::EmptyInputs);
    }
    Ok(Expr::Function {
        input: exprs,
        function: FunctionExpr::SumHorizontal { ignore_nulls },
        options: FunctionOptions {
            collect_groups: ApplyOptions::ElementWise,
            flags: FunctionFlags {
                wildcard_expansion: true,
                returns_scalar: false,
                allow_empty_inputs: false,
                allow_rename: false,
            },
            cast_options: CastOptions::Passthrough,
            fmt_str: OpLabel::Unset,
        },
    })
}

/// Compute the mean of all values horizontally across columns, with the
/// same `ignore_nulls` meaning as `sum_horizontal`. Fails eagerly when
/// given no expressions.
pub fn mean_horizontal<C: ColumnCombiner>(exprs: Vec<Expr<C>>, ignore_nulls: bool) -> (r: Result<
    Expr<C>,
    ExprError,
>)
    ensures
        exprs@.len() == 0 ==> (r matches Err(e) && e == ExprError::EmptyInputs),
        exprs@.len() > 0 ==> (r matches Ok(n)
            && n matches Expr::Function { input, function, options }
            && input@ == exprs@
            && function == (FunctionExpr::MeanHorizontal { ignore_nulls })
            && options == summean_horizontal_options()),
{
    if exprs.len() == 0 {
        return Err(ExprError::EmptyInputs);
    }
    Ok(Expr::Function {
        input: exprs,
        function: FunctionExpr::MeanHorizontal { ignore_nulls },
        options: FunctionOptions {
            collect_groups: ApplyOptions::ElementWise,
            flags: FunctionFlags {
                wildcard_expansion: true,
                returns_scalar: false,
                allow_empty_inputs: false,
                allow_rename: false,
            },
            cast_options: CastOptions::Passthrough,
            fmt_str: OpLabel::Unset,
        },
    })
}

/// Fold the expressions from left to right, keeping the first non-null
/// value per row. No emptiness check here: a zero-input node is range-
/// checked by the executor, not the builder.
pub fn coalesce<C: ColumnCombiner>(exprs: Vec<Expr<C>>) -> (r: Expr<C>)
    ensures
        r matches Expr::Function { input, function, options }
            && input@ == exprs@
            && function == FunctionExpr::Coalesce
            && options == coalesce_options(),
{
    Expr::Function {
        input: exprs,
        function: FunctionExpr::Coalesce,
        options: FunctionOptions {
            collect_groups: ApplyOptions::ElementWise,
            flags: FunctionFlags {
                wildcard_expansion: true,
                returns_scalar: false,
                allow_empty_inputs: false,
                allow_rename: false,
            },
            cast_options: CastOptions::CastToSupertypes,
            fmt_str: OpLabel::Unset,
        },
    }
}

} // verus!
