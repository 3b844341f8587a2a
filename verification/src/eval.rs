//! Evaluation of a built expression tree over its embedded columns.
//!
//! The executor proper is external; this walker stands in for it where a
//! node's inputs are known, so the deferred failures and the row
//! semantics of the nodes can be exercised end to end.

use vstd::prelude::*;
use crate::accum::{run_cum_fold, run_cum_reduce, run_fold, run_reduce};
use crate::agg::{apply_function, apply_named_spec, res_col_model};
use crate::column::{ColModel, Column, RepModel, cols_model, lemma_cols_model_index};
use crate::error::ExprError;
use crate::expr::{AccumKind, ColumnCombiner, Expr};

verus! {

/// The struct-shaped column a cumulative accumulation yields when its
/// only snapshot is the seed column itself.
pub open spec fn single_snapshot_col(c: ColModel) -> ColModel {
    ColModel {
        name: c.name,
        rep: RepModel::Struct { length: c.row_count(), fields: seq![c] },
    }
}

/// The inputs of an anonymous-function node.
pub open spec fn anon_input<C>(e: Expr<C>) -> Seq<Expr<C>>
    recommends
        e is AnonymousFunction,
{
    e->AnonymousFunction_input@
}

/// The accumulation kind of an anonymous-function node.
pub open spec fn anon_kind<C>(e: Expr<C>) -> AccumKind
    recommends
        e is AnonymousFunction,
{
    e->AnonymousFunction_function.kind
}

/// Evaluate every input expression to a column, in order.
fn eval_inputs<C: ColumnCombiner>(es: &Vec<Expr<C>>) -> (r: Result<Vec<Column>, ExprError>)
    ensures
        r matches Ok(cols) ==> (cols@.len() == es@.len() && forall|k: int|
            0 <= k < es@.len() ==> ((#[trigger] es@[k]) is Leaf ==> cols@[k]@ == (
            es@[k]->Leaf_0)@)),
        Expr::<C>::all_leaves(es@) ==> r is Ok,
    decreases *es,
{
    let mut out: Vec<Column> = Vec::new();
    let mut i: usize = 0;
    while i < es.len()
        invariant
            i <= es@.len(),
            out@.len() == i,
            forall|k: int|
                0 <= k < i ==> ((#[trigger] es@[k]) is Leaf ==> out@[k]@ == (es@[k]->Leaf_0)@),
        decreases es@.len() - i,
    {
        proof {
            assert(decreases_to!(*es => es@));
            assert(decreases_to!(es@ => es@[i as int]));
        }
        match eval_expr(&es[i]) {
            Result::Ok(c) => {
                out.push(c);
            },
            Result::Err(e) => {
                proof {
                    assert(!(es@[i as int] is Leaf));
                    assert(!Expr::<C>::all_leaves(es@));
                }
                return Err(e);
            },
        }
        i = i + 1;
    }
    Ok(out)
}

/// Evaluate one expression node to its column.
///
/// A leaf yields its column. An accumulation node evaluates its inputs
/// and drives the combining operation as its kind prescribes; a
/// named-function node evaluates its inputs and applies the built-in
/// operation row by row, exactly as `apply_named_spec` states.
pub fn eval_expr<C: ColumnCombiner>(e: &Expr<C>) -> (r: Result<Column, ExprError>)
    ensures
        e matches Expr::Leaf(c) ==> (r matches Ok(rc) && rc@ == c@),
        (e is AnonymousFunction && anon_input(*e).len() == 0 && (anon_kind(*e) is Reduce
            || anon_kind(*e) is CumReduce)) ==> (r matches Err(err) && err
            == ExprError::NoExpressionsToFold),
        (e is AnonymousFunction && anon_input(*e).len() == 1 && anon_input(*e)[0] is Leaf && (
        anon_kind(*e) is Fold || anon_kind(*e) is Reduce)) ==> (r matches Ok(rc) && rc@ == (
        anon_input(*e)[0]->Leaf_0)@),
        (e is AnonymousFunction && anon_input(*e).len() == 1 && anon_input(*e)[0] is Leaf
            && anon_kind(*e) is CumReduce) ==> (r matches Ok(rc) && rc@ == single_snapshot_col(
        (anon_input(*e)[0]->Leaf_0)@)),
        (e is AnonymousFunction && anon_input(*e).len() == 1 && anon_input(*e)[0] is Leaf
            && anon_kind(*e) is CumFold && anon_kind(*e)->CumFold_include_init) ==> (
        r matches Ok(rc) && rc@ == single_snapshot_col((anon_input(*e)[0]->Leaf_0)@)),
        (e is AnonymousFunction && anon_input(*e).len() == 1 && anon_input(*e)[0] is Leaf
            && anon_kind(*e) is CumFold && !anon_kind(*e)->CumFold_include_init) ==> (
        r matches Err(err) && err == ExprError::EmptyAccumulation),
        (e is Function && Expr::<C>::all_leaves((*e)->Function_input@)) ==> res_col_model(r)
            == apply_named_spec(
            (*e)->Function_function,
            Expr::<C>::leaf_cols((*e)->Function_input@),
        ),
    decreases *e,
{
    match e {
        Expr::Leaf(c) => Ok(c.duplicate()),
        Expr::AnonymousFunction { input, function, .. } => {
            proof {
                assert(decreases_to!(*e => (*e)->AnonymousFunction_input));
            }
            match eval_inputs(input) {
                Result::Err(err) => Err(err),
                Result::Ok(cols) => match function.kind {
                    AccumKind::Fold => run_fold(&function.combiner, cols),
                    AccumKind::Reduce => run_reduce(&function.combiner, cols),
                    AccumKind::CumFold { include_init } => run_cum_fold(
                        &function.combiner,
                        cols,
                        include_init,
                    ),
                    AccumKind::CumReduce => run_cum_reduce(&function.combiner, cols),
                },
            }
        },
        Expr::Function { input, function, .. } => {
            proof {
                assert(decreases_to!(*e => (*e)->Function_input));
            }
            match eval_inputs(input) {
                Result::Err(err) => Err(err),
                Result::Ok(cols) => {
                    let r = apply_function(function, &cols);
                    proof {
                        if Expr::<C>::all_leaves(input@) {
                            crate::column::lemma_cols_model_len(cols@);
                            assert forall|k: int| 0 <= k < cols@.len() implies
                                cols_model(cols@)[k] == Expr::<C>::leaf_cols(input@)[k] by {
                                lemma_cols_model_index(cols@, k);
                            }
                            assert(cols_model(cols@) =~= Expr::<C>::leaf_cols(input@));
                        }
                    }
                    r
                },
            }
        },
    }
}

} // verus!
