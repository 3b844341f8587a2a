//! The accumulation bodies invoked by the executor for anonymous-function
//! nodes: left-to-right folds over a group's evaluated input columns.
//!
//! Every combining step receives the accumulator and the next column as
//! duplicated shares, never as exclusive owners of a caller's buffer; a
//! step returning `Ok(None)` leaves the accumulator unchanged.

use vstd::prelude::*;
use crate::column::{
    ColModel, Column, RepModel, col_model, cols_model, lemma_cols_model_index,
    lemma_cols_model_len, lemma_cols_model_push,
};
use crate::error::ExprError;
use crate::expr::ColumnCombiner;

verus! {

/// Fold the columns into the accumulator carried as the *last* element of
/// `columns` (the seeding of `fold_exprs`). The final accumulator is the
/// result, unrenamed. A node built by `fold_exprs` always carries that
/// last element, so over its inputs this cannot fail except through the
/// combining operation itself.
pub fn run_fold<C: ColumnCombiner>(f: &C, columns: Vec<Column>) -> (r: Result<Column, ExprError>)
    ensures
        columns@.len() == 0 ==> (r matches Err(e) && e == ExprError::NoExpressionsToFold),
        columns@.len() == 1 ==> (r matches Ok(c) && c@ == columns@[0]@),
{
    let mut cols = columns;
    let popped = cols.pop();
    match popped {
        Option::None => Err(ExprError::NoExpressionsToFold),
        Option::Some(acc0) => {
            let mut acc = acc0;
            let mut i: usize = 0;
            while i < cols.len()
                invariant
                    cols@ == columns@.drop_last(),
                    columns@.len() >= 1,
                    columns@.len() == 1 ==> acc@ == columns@[0]@,
                    i <= cols@.len(),
                decreases cols@.len() - i,
            {
                let next = cols[i].duplicate();
                let cur = acc.duplicate();
                match f.combine(cur, next) {
                    Result::Err(e) => {
                        return Err(e);
                    },
                    Result::Ok(Option::Some(a)) => {
                        acc = a;
                    },
                    Result::Ok(Option::None) => {},
                }
                i = i + 1;
            }
            Ok(acc)
        },
    }
}

/// Fold the columns left to right, seeding from the first (the driving of
/// `reduce_exprs`). Over zero columns this fails with the deferred
/// computation error; over one column the result is that column,
/// unchanged, whatever the combining operation.
pub fn run_reduce<C: ColumnCombiner>(f: &C, columns: Vec<Column>) -> (r: Result<
    Column,
    ExprError,
>)
    ensures
        columns@.len() == 0 ==> (r matches Err(e) && e == ExprError::NoExpressionsToFold),
        columns@.len() == 1 ==> (r matches Ok(c) && c@ == columns@[0]@),
{
    if columns.len() == 0 {
        return Err(ExprError::NoExpressionsToFold);
    }
    let mut acc = columns[0].duplicate();
    let mut i: usize = 1;
    while i < columns.len()
        invariant
            columns@.len() >= 1,
            columns@.len() == 1 ==> acc@ == columns@[0]@,
            1 <= i <= columns@.len(),
        decreases columns@.len() - i,
    {
        let next = columns[i].duplicate();
        let cur = acc.duplicate();
        match f.combine(cur, next) {
            Result::Err(e) => {
                return Err(e);
            },
            Result::Ok(Option::Some(a)) => {
                acc = a;
            },
            Result::Ok(Option::None) => {},
        }
        i = i + 1;
    }
    Ok(acc)
}

/// As `run_reduce`, but the accumulator is recorded after every step (the
/// seed counts as step zero) and each recorded snapshot is renamed to the
/// input column that produced its step. The snapshots become the fields
/// of one struct-shaped column.
pub fn run_cum_reduce<C: ColumnCombiner>(f: &C, columns: Vec<Column>) -> (r: Result<
    Column,
    ExprError,
>)
    ensures
        columns@.len() == 0 ==> (r matches Err(e) && e == ExprError::NoExpressionsToFold),
        r matches Ok(c) ==> (c@.rep matches RepModel::Struct { length, fields }
            && fields.len() == columns@.len()
            && fields[0] == columns@[0]@
            && (forall|k: int|
                1 <= k < fields.len() ==> (#[trigger] fields[k]).name == columns@[k]@.name)
            && length == columns@[0]@.row_count()),
        columns@.len() == 1 ==> (r matches Ok(c) && c@ == (ColModel {
            name: columns@[0]@.name,
            rep: RepModel::Struct {
                length: columns@[0]@.row_count(),
                fields: seq![columns@[0]@],
            },
        })),
{
    if columns.len() == 0 {
        return Err(ExprError::NoExpressionsToFold);
    }
    let mut acc = columns[0].duplicate();
    let mut result: Vec<Column> = Vec::new();
    result.push(acc.duplicate());
    proof {
        lemma_cols_model_index(result@, 0);
    }
    let mut i: usize = 1;
    while i < columns.len()
        invariant
            columns@.len() >= 1,
            1 <= i <= columns@.len(),
            result@.len() == i,
            cols_model(result@)[0] == columns@[0]@,
            forall|k: int|
                1 <= k < i ==> (#[trigger] cols_model(result@)[k]).name == columns@[k]@.name,
            columns@.len() == 1 ==> acc@ == columns@[0]@,
        decreases columns@.len() - i,
    {
        let ghost prev = result@;
        let name = columns[i].name.clone();
        let next = columns[i].duplicate();
        let cur = acc.duplicate();
        match f.combine(cur, next) {
            Result::Err(e) => {
                return Err(e);
            },
            Result::Ok(Option::Some(a)) => {
                acc = a;
            },
            Result::Ok(Option::None) => {},
        }
        acc.rename(name);
        result.push(acc.duplicate());
        proof {
            lemma_cols_model_push(prev, result@.last());
            lemma_cols_model_len(prev);
            assert forall|k: int| 1 <= k < i + 1 implies
                (#[trigger] cols_model(result@)[k]).name == columns@[k]@.name by {
                if k < i {
                    assert(cols_model(result@)[k] == cols_model(prev)[k]);
                }
            }
        }
        i = i + 1;
    }
    proof {
        lemma_cols_model_len(result@);
        lemma_cols_model_index(result@, 0);
    }
    let length = result[0].len();
    let name = acc.name.clone();
    let built = Column::from_columns(name, length, &result);
    proof {
        if columns@.len() == 1 {
            assert(cols_model(result@) =~= seq![columns@[0]@]);
        }
    }
    built
}

/// As `run_fold` (accumulator carried last), but each *updating* step's
/// accumulator is renamed to its input column and recorded; with
/// `include_init` the initial accumulator is recorded first. The
/// snapshots become the fields of one struct-shaped column; when no
/// snapshot was recorded at all, evaluation fails rather than guessing a
/// result.
pub fn run_cum_fold<C: ColumnCombiner>(f: &C, columns: Vec<Column>, include_init: bool) -> (r:
    Result<Column, ExprError>)
    ensures
        columns@.len() == 0 ==> (r matches Err(e) && e == ExprError::NoExpressionsToFold),
        r matches Ok(c) ==> c@.rep is Struct,
        include_init ==> (r matches Ok(c) ==> (c@.rep matches RepModel::Struct {
            length,
            fields,
        }
            && fields.len() >= 1
            && fields[0] == columns@.last()@
            && length == columns@.last()@.row_count())),
        columns@.len() == 1 && include_init ==> (r matches Ok(c) && c@ == (ColModel {
            name: columns@[0]@.name,
            rep: RepModel::Struct {
                length: columns@[0]@.row_count(),
                fields: seq![columns@[0]@],
            },
        })),
        columns@.len() == 1 && !include_init ==> (r matches Err(e) && e
            == ExprError::EmptyAccumulation),
{
    let mut cols = columns;
    let popped = cols.pop();
    match popped {
        Option::None => Err(ExprError::NoExpressionsToFold),
        Option::Some(acc0) => {
            let mut acc = acc0;
            let mut result: Vec<Column> = Vec::new();
            if include_init {
                result.push(acc.duplicate());
                proof {
                    lemma_cols_model_index(result@, 0);
                }
            }
            let mut i: usize = 0;
            while i < cols.len()
                invariant
                    cols@ == columns@.drop_last(),
                    columns@.len() >= 1,
                    i <= cols@.len(),
                    include_init ==> (result@.len() >= 1 && cols_model(result@)[0]
                        == columns@.last()@),
                    result@.len() <= i + if include_init { 1int } else { 0int },
                    columns@.len() == 1 ==> acc@ == columns@[0]@,
                decreases cols@.len() - i,
            {
                let ghost prev = result@;
                let name = cols[i].name.clone();
                let next = cols[i].duplicate();
                let cur = acc.duplicate();
                match f.combine(cur, next) {
                    Result::Err(e) => {
                        return Err(e);
                    },
                    Result::Ok(Option::Some(a)) => {
                        acc = a;
                        acc.rename(name);
                        result.push(acc.duplicate());
                        proof {
                            lemma_cols_model_push(prev, result@.last());
                            lemma_cols_model_len(prev);
                        }
                    },
                    Result::Ok(Option::None) => {},
                }
                i = i + 1;
            }
            if result.len() == 0 {
                return Err(ExprError::EmptyAccumulation);
            }
            proof {
                lemma_cols_model_len(result@);
                lemma_cols_model_index(result@, 0);
            }
            let length = result[0].len();
            let name = acc.name.clone();
            let built = Column::from_columns(name, length, &result);
            proof {
                if columns@.len() == 1 && include_init {
                    assert(result@.len() == 1);
                    assert(cols_model(result@) =~= seq![columns@[0]@]);
                }
            }
            built
        },
    }
}

} // verus!
