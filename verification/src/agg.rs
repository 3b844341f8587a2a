//! Row-wise application of the named horizontal operations over a
//! group's evaluated input columns.
//!
//! The value model is integer/boolean: a mean is generally fractional, so
//! applying `MeanHorizontal` here reports `Unsupported`; its node is still
//! built with the exact policy the external executor needs. For the other
//! operations nulls are excluded element-wise: a row's aggregate is the
//! fold of its non-null values, and `Null` when every value is null
//! (except a sum ignoring nulls, which is 0). A sum with `ignore_nulls`
//! unset is poisoned to `Null` by any null in the row.

use vstd::prelude::*;
use crate::column::{ColModel, Column, ColumnRep, RepModel, cols_model, lemma_cols_model_index};
use crate::dtype::{DTypeModel, DataType, dup_dtype, get_supertype, fold_super, super_type_of};
use crate::error::ExprError;
use crate::expr::FunctionExpr;
use crate::column::Value;
use crate::resolver::{lemma_fold_super_none, lemma_fold_super_step};

verus! {

broadcast use vstd::string::group_string_axioms;

/// The pairwise fold driving `all`/`any`/`max`/`min` rows.
#[derive(Clone, Copy, Debug, PartialEq, Eq, Structural)]
pub enum RowOp {
    And,
    Or,
    Max,
    Min,
}

pub open spec fn is_bool_or_null(v: Value) -> bool {
    v is Null || v is Bool
}

pub open spec fn is_int_or_null(v: Value) -> bool {
    v is Null || v is Int
}

/// Merge one more value into a row accumulator; nulls are skipped.
pub open spec fn merge_vals(op: RowOp, acc: Value, v: Value) -> Value {
    if v is Null {
        acc
    } else if acc is Null {
        v
    } else {
        match op {
            RowOp::And => Value::Bool(acc->Bool_0 && v->Bool_0),
            RowOp::Or => Value::Bool(acc->Bool_0 || v->Bool_0),
            RowOp::Max => if acc->Int_0 >= v->Int_0 {
                acc
            } else {
                v
            },
            RowOp::Min => if acc->Int_0 <= v->Int_0 {
                acc
            } else {
                v
            },
        }
    }
}

/// Left-to-right merge of a whole row; `Null` when every value is null.
pub open spec fn fold_row(op: RowOp, vals: Seq<Value>) -> Value
    decreases vals.len(),
{
    if vals.len() == 0 {
        Value::Null
    } else {
        merge_vals(op, fold_row(op, vals.drop_last()), vals.last())
    }
}

/// Sum of a row's non-null values (nulls contribute nothing).
pub open spec fn sum_row(vals: Seq<Value>) -> int
    decreases vals.len(),
{
    if vals.len() == 0 {
        0
    } else {
        sum_row(vals.drop_last()) + (if vals.last() is Int {
            vals.last()->Int_0 as int
        } else {
            0
        })
    }
}

/// Every left-to-right partial sum of the row stays representable.
pub open spec fn row_sum_ok(vals: Seq<Value>) -> bool {
    forall|k: int|
        0 <= k <= vals.len() ==> i64::MIN <= sum_row(#[trigger] vals.take(k)) <= i64::MAX
}

pub open spec fn has_null(vals: Seq<Value>) -> bool {
    exists|i: int| 0 <= i < vals.len() && vals[i] is Null
}

/// The sum aggregate of one row under the chosen null policy.
pub open spec fn sum_value(vals: Seq<Value>, ignore_nulls: bool) -> Value {
    if !ignore_nulls && has_null(vals) {
        Value::Null
    } else {
        Value::Int(sum_row(vals) as i64)
    }
}

/// The first non-null value of a row, in input order; `Null` if none.
pub open spec fn first_non_null(vals: Seq<Value>) -> Value
    decreases vals.len(),
{
    if vals.len() == 0 {
        Value::Null
    } else if !(vals[0] is Null) {
        vals[0]
    } else {
        first_non_null(vals.drop_first())
    }
}

/// Coerce one selected value to the common supertype of the inputs.
/// Nothing casts to a fractional type in this value model.
pub open spec fn cast_value_spec(v: Value, t: DTypeModel) -> Result<Value, ExprError> {
    if v is Null {
        Ok(Value::Null)
    } else {
        match t {
            DTypeModel::Int64 => match v {
                Value::Int(i) => Ok(Value::Int(i)),
                Value::Bool(b) => Ok(Value::Int(if b {
                    1
                } else {
                    0
                })),
                Value::Null => Ok(Value::Null),
            },
            DTypeModel::Boolean => match v {
                Value::Bool(b) => Ok(Value::Bool(b)),
                _ => Err(ExprError::TypeMismatch),
            },
            DTypeModel::Float64 => Err(ExprError::Unsupported),
            DTypeModel::Struct(_) => Err(ExprError::TypeMismatch),
        }
    }
}

/// Whether every input column is a plain (non-struct) column.
pub open spec fn all_plain(cols: Seq<ColModel>) -> bool {
    forall|i: int| 0 <= i < cols.len() ==> (#[trigger] cols[i]).rep is Values
}

/// Whether every input column holds exactly `n` rows.
pub open spec fn all_len(cols: Seq<ColModel>, n: nat) -> bool {
    forall|i: int| 0 <= i < cols.len() ==> (#[trigger] cols[i]).row_count() == n
}

pub open spec fn plain_vals(c: ColModel) -> Seq<Value>
    recommends
        c.rep is Values,
{
    c.rep->Values_values
}

/// Row `r` across the columns, in input order.
pub open spec fn row_at(cols: Seq<ColModel>, r: int) -> Seq<Value> {
    cols.map_values(|c: ColModel| plain_vals(c)[r])
}

/// Whether every value of every column satisfies `is_bool_or_null`.
pub open spec fn cols_bool(cols: Seq<ColModel>, n: nat) -> bool {
    forall|j: int, r: int|
        0 <= j < cols.len() && 0 <= r < n ==> is_bool_or_null(
            #[trigger] plain_vals(cols[j])[r],
        )
}

/// Whether every value of every column satisfies `is_int_or_null`.
pub open spec fn cols_int(cols: Seq<ColModel>, n: nat) -> bool {
    forall|j: int, r: int|
        0 <= j < cols.len() && 0 <= r < n ==> is_int_or_null(#[trigger] plain_vals(cols[j])[r])
}

/// Whether every row's partial sums stay representable.
pub open spec fn sums_ok(cols: Seq<ColModel>, n: nat) -> bool {
    forall|r: int| 0 <= r < n ==> row_sum_ok(#[trigger] row_at(cols, r))
}

/// The dtypes of the (plain) input columns, in order.
pub open spec fn col_dtypes(cols: Seq<ColModel>) -> Seq<DTypeModel> {
    cols.map_values(|c: ColModel| c.rep->Values_dtype)
}

/// Whether every row's selected first non-null value casts to `st`.
pub open spec fn casts_ok(cols: Seq<ColModel>, st: DTypeModel, n: nat) -> bool {
    forall|r: int|
        0 <= r < n ==> cast_value_spec(first_non_null(#[trigger] row_at(cols, r)), st) is Ok
}

/// The operation driven by a `RowOp` tag: its output name, type, and
/// whether its operands must be booleans or integers.
pub open spec fn row_op_name(op: RowOp) -> Seq<char> {
    match op {
        RowOp::And => "all"@,
        RowOp::Or => "any"@,
        RowOp::Max => "max"@,
        RowOp::Min => "min"@,
    }
}

pub open spec fn row_op_bool(op: RowOp) -> bool {
    op is And || op is Or
}

pub open spec fn row_op_dtype(op: RowOp) -> DTypeModel {
    if row_op_bool(op) {
        DTypeModel::Boolean
    } else {
        DTypeModel::Int64
    }
}

/// What applying a named horizontal operation to evaluated input columns
/// yields, row by row.
pub open spec fn apply_named_spec(f: FunctionExpr, cols: Seq<ColModel>) -> Result<
    ColModel,
    ExprError,
> {
    if f is MeanHorizontal {
        Err(ExprError::Unsupported)
    } else if cols.len() == 0 {
        Err(ExprError::EmptyInputs)
    } else if !all_plain(cols) {
        Err(ExprError::TypeMismatch)
    } else {
        let n = cols[0].row_count();
        if !all_len(cols, n) {
            Err(ExprError::LengthMismatch)
        } else {
            match f {
                FunctionExpr::AllHorizontal => row_op_spec(RowOp::And, cols, n),
                FunctionExpr::AnyHorizontal => row_op_spec(RowOp::Or, cols, n),
                FunctionExpr::MaxHorizontal => row_op_spec(RowOp::Max, cols, n),
                FunctionExpr::MinHorizontal => row_op_spec(RowOp::Min, cols, n),
                FunctionExpr::SumHorizontal { ignore_nulls } => if !cols_int(cols, n) {
                    Err(ExprError::TypeMismatch)
                } else if !sums_ok(cols, n) {
                    Err(ExprError::Overflow)
                } else {
                    Ok(
                        ColModel {
                            name: "sum"@,
                            rep: RepModel::Values {
                                dtype: DTypeModel::Int64,
                                values: Seq::new(n, |r: int| sum_value(row_at(cols, r), ignore_nulls)),
                            },
                        },
                    )
                },
                FunctionExpr::Coalesce => match fold_super(col_dtypes(cols)) {
                    Option::None => Err(ExprError::NoCommonSupertype),
                    Option::Some(st) => if casts_ok(cols, st, n) {
                        Ok(
                            ColModel {
                                name: cols[0].name,
                                rep: RepModel::Values {
                                    dtype: st,
                                    values: Seq::new(
                                        n,
                                        |r: int| cast_value_spec(
                                            first_non_null(row_at(cols, r)),
                                            st,
                                        )->Ok_0,
                                    ),
                                },
                            },
                        )
                    } else if st is Float64 {
                        Err(ExprError::Unsupported)
                    } else {
                        Err(ExprError::TypeMismatch)
                    },
                },
                FunctionExpr::MeanHorizontal { .. } => Err(ExprError::Unsupported),
            }
        }
    }
}

/// The result of one of the four element-wise merges over all rows.
pub open spec fn row_op_spec(op: RowOp, cols: Seq<ColModel>, n: nat) -> Result<
    ColModel,
    ExprError,
> {
    let typed = if row_op_bool(op) {
        cols_bool(cols, n)
    } else {
        cols_int(cols, n)
    };
    if !typed {
        Err(ExprError::TypeMismatch)
    } else {
        Ok(
            ColModel {
                name: row_op_name(op),
                rep: RepModel::Values {
                    dtype: row_op_dtype(op),
                    values: Seq::new(n, |r: int| fold_row(op, row_at(cols, r))),
                },
            },
        )
    }
}

pub open spec fn res_col_model(r: Result<Column, ExprError>) -> Result<ColModel, ExprError> {
    match r {
        Result::Ok(c) => Ok(c@),
        Result::Err(e) => Err(e),
    }
}

/// Read one cell of a plain column.
fn value_at(c: &Column, r: usize) -> (v: Value)
    requires
        c@.rep is Values,
        r < c@.row_count(),
    ensures
        v == plain_vals(c@)[r as int],
{
    match &c.rep {
        ColumnRep::Values { values, .. } => values[r],
        ColumnRep::Struct { .. } => unreached(),
    }
}

/// Read the dtype of a plain column.
fn dtype_at(c: &Column) -> (d: &DataType)
    requires
        c@.rep is Values,
    ensures
        d@ == c@.rep->Values_dtype,
{
    match &c.rep {
        ColumnRep::Values { dtype, .. } => dtype,
        ColumnRep::Struct { .. } => unreached(),
    }
}

/// Runtime mirror of [`merge_vals`] for well-kinded operands.
fn merge_exec(op: RowOp, acc: Value, v: Value) -> (r: Value)
    requires
        row_op_bool(op) ==> is_bool_or_null(acc) && is_bool_or_null(v),
        !row_op_bool(op) ==> is_int_or_null(acc) && is_int_or_null(v),
    ensures
        r == merge_vals(op, acc, v),
{
    match v {
        Value::Null => acc,
        _ => match acc {
            Value::Null => v,
            Value::Bool(a) => match (op, v) {
                (RowOp::And, Value::Bool(b)) => Value::Bool(a && b),
                (RowOp::Or, Value::Bool(b)) => Value::Bool(a || b),
                _ => unreached(),
            },
            Value::Int(a) => match (op, v) {
                (RowOp::Max, Value::Int(b)) => if a >= b {
                    Value::Int(a)
                } else {
                    Value::Int(b)
                },
                (RowOp::Min, Value::Int(b)) => if a <= b {
                    Value::Int(a)
                } else {
                    Value::Int(b)
                },
                _ => unreached(),
            },
        },
    }
}

/// Runtime mirror of [`cast_value_spec`].
fn cast_value(v: Value, t: &DataType) -> (r: Result<Value, ExprError>)
    ensures
        r == cast_value_spec(v, t@),
{
    match v {
        Value::Null => Ok(Value::Null),
        Value::Int(i) => match t {
            DataType::Int64 => Ok(Value::Int(i)),
            DataType::Boolean => Err(ExprError::TypeMismatch),
            DataType::Float64 => Err(ExprError::Unsupported),
            DataType::Struct(..) => Err(ExprError::TypeMismatch),
        },
        Value::Bool(b) => match t {
            DataType::Int64 => Ok(Value::Int(if b { 1 } else { 0 })),
            DataType::Boolean => Ok(Value::Bool(b)),
            DataType::Float64 => Err(ExprError::Unsupported),
            DataType::Struct(..) => Err(ExprError::TypeMismatch),
        },
    }
}

/// Apply one of the four element-wise merges over all rows.
fn fold_rows(op: RowOp, cols: &Vec<Column>, n: usize) -> (r: Result<Column, ExprError>)
    requires
        cols@.len() >= 1,
        all_plain(cols_model(cols@)),
        all_len(cols_model(cols@), n as nat),
    ensures
        res_col_model(r) == row_op_spec(op, cols_model(cols@), n as nat),
{
    let ghost colsm = cols_model(cols@);
    proof {
        crate::column::lemma_cols_model_len(cols@);
    }
    let is_bool_op = matches!(op, RowOp::And | RowOp::Or);
    proof {
        assert(is_bool_op == row_op_bool(op));
    }
    // First pass: every value must be of the operation's kind.
    let mut j: usize = 0;
    while j < cols.len()
        invariant
            colsm == cols_model(cols@),
            colsm.len() == cols@.len(),
            all_plain(colsm),
            all_len(colsm, n as nat),
            is_bool_op == row_op_bool(op),
            j <= cols@.len(),
            forall|jj: int, rr: int|
                0 <= jj < j && 0 <= rr < n ==> (if is_bool_op {
                    is_bool_or_null(#[trigger] plain_vals(colsm[jj])[rr])
                } else {
                    is_int_or_null(plain_vals(colsm[jj])[rr])
                }),
        decreases cols@.len() - j,
    {
        proof {
            lemma_cols_model_index(cols@, j as int);
        }
        let mut r: usize = 0;
        while r < n
            invariant
                colsm == cols_model(cols@),
                colsm.len() == cols@.len(),
                all_plain(colsm),
                all_len(colsm, n as nat),
                is_bool_op == row_op_bool(op),
                j < cols@.len(),
                colsm[j as int] == cols@[j as int]@,
                r <= n,
                forall|rr: int|
                    0 <= rr < r ==> (if is_bool_op {
                        is_bool_or_null(#[trigger] plain_vals(colsm[j as int])[rr])
                    } else {
                        is_int_or_null(plain_vals(colsm[j as int])[rr])
                    }),
            decreases n - r,
        {
            let v = value_at(&cols[j], r);
            let ok = if is_bool_op {
                matches!(v, Value::Null | Value::Bool(_))
            } else {
                matches!(v, Value::Null | Value::Int(_))
            };
            if !ok {
                proof {
                    if is_bool_op {
                        assert(!is_bool_or_null(plain_vals(colsm[j as int])[r as int]));
                        assert(!cols_bool(colsm, n as nat));
                    } else {
                        assert(!is_int_or_null(plain_vals(colsm[j as int])[r as int]));
                        assert(!cols_int(colsm, n as nat));
                    }
                }
                return Err(ExprError::TypeMismatch);
            }
            r = r + 1;
        }
        j = j + 1;
    }
    proof {
        if is_bool_op {
            assert(cols_bool(colsm, n as nat));
        } else {
            assert(cols_int(colsm, n as nat));
        }
    }
    // Second pass: merge each row left to right.
    let m = cols.len();
    let mut out: Vec<Value> = Vec::new();
    let mut r: usize = 0;
    while r < n
        invariant
            colsm == cols_model(cols@),
            colsm.len() == cols@.len(),
            all_plain(colsm),
            all_len(colsm, n as nat),
            is_bool_op == row_op_bool(op),
            is_bool_op ==> cols_bool(colsm, n as nat),
            !is_bool_op ==> cols_int(colsm, n as nat),
            m == cols@.len(),
            r <= n,
            out@.len() == r,
            forall|k: int| 0 <= k < r ==> out@[k] == fold_row(op, #[trigger] row_at(colsm, k)),
        decreases n - r,
    {
        let ghost row = row_at(colsm, r as int);
        proof {
            assert(row.len() == colsm.len());
        }
        let mut acc = Value::Null;
        let mut j: usize = 0;
        while j < m
            invariant
                colsm == cols_model(cols@),
                colsm.len() == cols@.len(),
                all_plain(colsm),
                all_len(colsm, n as nat),
                is_bool_op == row_op_bool(op),
                is_bool_op ==> cols_bool(colsm, n as nat),
                !is_bool_op ==> cols_int(colsm, n as nat),
                m == cols@.len(),
                r < n,
                row == row_at(colsm, r as int),
                j <= m,
                acc == fold_row(op, row.take(j as int)),
                is_bool_op ==> is_bool_or_null(acc),
                !is_bool_op ==> is_int_or_null(acc),
            decreases m - j,
        {
            proof {
                lemma_cols_model_index(cols@, j as int);
                assert(row[j as int] == plain_vals(colsm[j as int])[r as int]);
            }
            let v = value_at(&cols[j], r);
            acc = merge_exec(op, acc, v);
            proof {
                assert(row.take(j + 1).drop_last() =~= row.take(j as int));
                assert(row.take(j + 1).last() == row[j as int]);
            }
            j = j + 1;
        }
        proof {
            assert(row.take(m as int) =~= row);
        }
        out.push(acc);
        r = r + 1;
    }
    let name: String = match op {
        RowOp::And => "all".to_string(),
        RowOp::Or => "any".to_string(),
        RowOp::Max => "max".to_string(),
        RowOp::Min => "min".to_string(),
    };
    let dtype = if is_bool_op {
        DataType::Boolean
    } else {
        DataType::Int64
    };
    let built = Column::new(name, dtype, out);
    proof {
        assert(out@ =~= Seq::new(n as nat, |rr: int| fold_row(op, row_at(colsm, rr))));
    }
    Ok(built)
}

/// A row whose first `j` values are null selects its first non-null
/// value from the rest.
pub proof fn lemma_first_non_null_skip(vals: Seq<Value>, j: int)
    requires
        0 <= j <= vals.len(),
        forall|k: int| 0 <= k < j ==> (#[trigger] vals[k]) is Null,
    ensures
        first_non_null(vals) == first_non_null(vals.skip(j)),
    decreases j,
{
    if j > 0 {
        assert(vals[0] is Null);
        assert(vals.drop_first() == vals.skip(1));
        lemma_first_non_null_skip(vals.drop_first(), j - 1);
        assert(vals.drop_first().skip(j - 1) =~= vals.skip(j));
    } else {
        assert(vals.skip(0) =~= vals);
    }
}

/// Sum each row's values under the chosen null policy.
fn sum_columns(cols: &Vec<Column>, n: usize, ignore_nulls: bool) -> (r: Result<
    Column,
    ExprError,
>)
    requires
        cols@.len() >= 1,
        all_plain(cols_model(cols@)),
        all_len(cols_model(cols@), n as nat),
        cols_int(cols_model(cols@), n as nat),
    ensures
        res_col_model(r) == (if !sums_ok(cols_model(cols@), n as nat) {
            Result::<ColModel, ExprError>::Err(ExprError::Overflow)
        } else {
            Result::<ColModel, ExprError>::Ok(
                ColModel {
                    name: "sum"@,
                    rep: RepModel::Values {
                        dtype: DTypeModel::Int64,
                        values: Seq::new(
                            n as nat,
                            |rr: int| sum_value(row_at(cols_model(cols@), rr), ignore_nulls),
                        ),
                    },
                },
            )
        }),
{
    let ghost colsm = cols_model(cols@);
    proof {
        crate::column::lemma_cols_model_len(cols@);
    }
    let m = cols.len();
    let mut out: Vec<Value> = Vec::new();
    let mut r: usize = 0;
    while r < n
        invariant
            colsm == cols_model(cols@),
            colsm.len() == cols@.len(),
            all_plain(colsm),
            all_len(colsm, n as nat),
            cols_int(colsm, n as nat),
            m == cols@.len(),
            r <= n,
            out@.len() == r,
            forall|k: int| 0 <= k < r ==> row_sum_ok(#[trigger] row_at(colsm, k)),
            forall|k: int|
                0 <= k < r ==> out@[k] == sum_value(#[trigger] row_at(colsm, k), ignore_nulls),
        decreases n - r,
    {
        let ghost row = row_at(colsm, r as int);
        proof {
            assert(row.len() == colsm.len());
        }
        let mut acc: i64 = 0;
        let mut saw_null = false;
        let mut j: usize = 0;
        while j < m
            invariant
                colsm == cols_model(cols@),
                colsm.len() == cols@.len(),
                all_plain(colsm),
                all_len(colsm, n as nat),
                cols_int(colsm, n as nat),
                m == cols@.len(),
                r < n,
                row == row_at(colsm, r as int),
                j <= m,
                acc == sum_row(row.take(j as int)),
                saw_null == has_null(row.take(j as int)),
                forall|k: int|
                    0 <= k <= j ==> i64::MIN <= sum_row(#[trigger] row.take(k)) <= i64::MAX,
            decreases m - j,
        {
            proof {
                lemma_cols_model_index(cols@, j as int);
                assert(row[j as int] == plain_vals(colsm[j as int])[r as int]);
                assert(row.take(j + 1).drop_last() =~= row.take(j as int));
                assert(row.take(j + 1).last() == row[j as int]);
            }
            let v = value_at(&cols[j], r);
            match v {
                Value::Null => {
                    saw_null = true;
                    proof {
                        assert(row.take(j + 1)[j as int] is Null);
                        assert(has_null(row.take(j + 1)));
                    }
                },
                Value::Int(x) => {
                    let overflow = if x >= 0 {
                        acc > i64::MAX - x
                    } else {
                        acc < i64::MIN - x
                    };
                    if overflow {
                        proof {
                            assert(sum_row(row.take(j + 1)) == acc + x);
                            assert(!row_sum_ok(row));
                            assert(!sums_ok(colsm, n as nat));
                        }
                        return Err(ExprError::Overflow);
                    }
                    acc = acc + x;
                    proof {
                        if has_null(row.take(j + 1)) {
                            let w = choose|i: int|
                                0 <= i < row.take(j + 1).len() && (#[trigger] row.take(j + 1)[i])
                                    is Null;
                            assert(row.take(j as int)[w] is Null);
                        }
                    }
                },
                Value::Bool(..) => {
                    proof {
                        assert(is_int_or_null(plain_vals(colsm[j as int])[r as int]));
                    }
                    return unreached();
                },
            }
            proof {
                if saw_null && !has_null(row.take(j + 1)) {
                    assert(false);
                }
            }
            j = j + 1;
        }
        proof {
            assert(row.take(m as int) =~= row);
        }
        let cell = if !ignore_nulls && saw_null {
            Value::Null
        } else {
            Value::Int(acc)
        };
        out.push(cell);
        r = r + 1;
    }
    let built = Column::new("sum".to_string(), DataType::Int64, out);
    proof {
        assert(out@ =~= Seq::new(n as nat, |rr: int| sum_value(row_at(colsm, rr), ignore_nulls)));
    }
    Ok(built)
}

/// Keep each row's first non-null value, coerced to the inputs' common
/// supertype.
fn coalesce_columns(cols: &Vec<Column>, n: usize) -> (r: Result<Column, ExprError>)
    requires
        cols@.len() >= 1,
        all_plain(cols_model(cols@)),
        all_len(cols_model(cols@), n as nat),
    ensures
        res_col_model(r) == (match fold_super(col_dtypes(cols_model(cols@))) {
            Option::None => Result::<ColModel, ExprError>::Err(ExprError::NoCommonSupertype),
            Option::Some(st) => if casts_ok(cols_model(cols@), st, n as nat) {
                Result::<ColModel, ExprError>::Ok(
                    ColModel {
                        name: cols_model(cols@)[0].name,
                        rep: RepModel::Values {
                            dtype: st,
                            values: Seq::new(
                                n as nat,
                                |rr: int| cast_value_spec(
                                    first_non_null(row_at(cols_model(cols@), rr)),
                                    st,
                                )->Ok_0,
                            ),
                        },
                    },
                )
            } else if st is Float64 {
                Result::<ColModel, ExprError>::Err(ExprError::Unsupported)
            } else {
                Result::<ColModel, ExprError>::Err(ExprError::TypeMismatch)
            },
        }),
{
    let ghost colsm = cols_model(cols@);
    let ghost types = col_dtypes(colsm);
    proof {
        crate::column::lemma_cols_model_len(cols@);
        lemma_cols_model_index(cols@, 0);
    }
    let m = cols.len();
    let mut st = dup_dtype(dtype_at(&cols[0]));
    proof {
        assert(types.take(1) =~= seq![types[0]]);
        assert(fold_super(types.take(1)) == Some(st@));
    }
    let mut i: usize = 1;
    while i < m
        invariant
            colsm == cols_model(cols@),
            colsm.len() == cols@.len(),
            all_plain(colsm),
            types == col_dtypes(colsm),
            types.len() == cols@.len(),
            m == cols@.len(),
            1 <= i <= m,
            fold_super(types.take(i as int)) == Some(st@),
        decreases m - i,
    {
        proof {
            lemma_cols_model_index(cols@, i as int);
            lemma_fold_super_step(types, i as int);
        }
        match get_supertype(&st, dtype_at(&cols[i])) {
            Option::None => {
                proof {
                    lemma_fold_super_none(types, i + 1);
                }
                return Err(ExprError::NoCommonSupertype);
            },
            Option::Some(s) => {
                st = s;
            },
        }
        i = i + 1;
    }
    proof {
        assert(types.take(m as int) =~= types);
    }
    let ghost stm = st@;
    let mut out: Vec<Value> = Vec::new();
    let mut r: usize = 0;
    while r < n
        invariant
            colsm == cols_model(cols@),
            colsm.len() == cols@.len(),
            all_plain(colsm),
            all_len(colsm, n as nat),
            m == cols@.len(),
            m >= 1,
            stm == st@,
            fold_super(col_dtypes(colsm)) == Some(stm),
            r <= n,
            out@.len() == r,
            forall|k: int|
                0 <= k < r ==> cast_value_spec(
                    first_non_null(#[trigger] row_at(colsm, k)),
                    stm,
                ) is Ok,
            forall|k: int|
                0 <= k < r ==> out@[k] == cast_value_spec(
                    first_non_null(#[trigger] row_at(colsm, k)),
                    stm,
                )->Ok_0,
        decreases n - r,
    {
        let ghost row = row_at(colsm, r as int);
        proof {
            assert(row.len() == colsm.len());
        }
        let mut sel = Value::Null;
        let mut found = false;
        let mut j: usize = 0;
        while j < m && !found
            invariant
                colsm == cols_model(cols@),
                colsm.len() == cols@.len(),
                all_plain(colsm),
                all_len(colsm, n as nat),
                m == cols@.len(),
                r < n,
                row == row_at(colsm, r as int),
                j <= m,
                !found ==> sel is Null,
                !found ==> forall|k: int| 0 <= k < j ==> (#[trigger] row[k]) is Null,
                found ==> sel == first_non_null(row),
            decreases m - j,
        {
            proof {
                lemma_cols_model_index(cols@, j as int);
                assert(row[j as int] == plain_vals(colsm[j as int])[r as int]);
            }
            let v = value_at(&cols[j], r);
            if !matches!(v, Value::Null) {
                sel = v;
                found = true;
                proof {
                    lemma_first_non_null_skip(row, j as int);
                    assert(row.skip(j as int)[0] == row[j as int]);
                    assert(first_non_null(row) == row[j as int]);
                }
            }
            j = j + 1;
        }
        proof {
            if !found {
                lemma_first_non_null_skip(row, row.len() as int);
                assert(row.skip(row.len() as int) =~= Seq::empty());
                assert(first_non_null(row) is Null);
            }
            assert(sel == first_non_null(row));
        }
        match cast_value(sel, &st) {
            Result::Ok(c) => {
                out.push(c);
            },
            Result::Err(e) => {
                proof {
                    assert(!casts_ok(colsm, stm, n as nat));
                }
                return Err(e);
            },
        }
        r = r + 1;
    }
    let name = cols[0].name.clone();
    let built = Column::new(name, st, out);
    proof {
        lemma_cols_model_index(cols@, 0);
        assert(out@ =~= Seq::new(
            n as nat,
            |rr: int| cast_value_spec(first_non_null(row_at(colsm, rr)), stm)->Ok_0,
        ));
    }
    Ok(built)
}

/// Apply a named horizontal operation to a group's evaluated input
/// columns. The contract is exact: [`apply_named_spec`] says for every
/// input whether the call succeeds and with which rows or error.
pub fn apply_function(function: &FunctionExpr, cols: &Vec<Column>) -> (r: Result<
    Column,
    ExprError,
>)
    ensures
        res_col_model(r) == apply_named_spec(*function, cols_model(cols@)),
{
    let ghost colsm = cols_model(cols@);
    proof {
        crate::column::lemma_cols_model_len(cols@);
    }
    if matches!(function, FunctionExpr::MeanHorizontal { .. }) {
        return Err(ExprError::Unsupported);
    }
    if cols.len() == 0 {
        return Err(ExprError::EmptyInputs);
    }
    let mut i: usize = 0;
    while i < cols.len()
        invariant
            colsm == cols_model(cols@),
            colsm.len() == cols@.len(),
            !((*function) is MeanHorizontal),
            cols@.len() >= 1,
            i <= cols@.len(),
            forall|k: int| 0 <= k < i ==> (#[trigger] colsm[k]).rep is Values,
        decreases cols@.len() - i,
    {
        proof {
            lemma_cols_model_index(cols@, i as int);
        }
        if matches!(&cols[i].rep, ColumnRep::Struct { .. }) {
            proof {
                assert(!all_plain(colsm));
            }
            return Err(ExprError::TypeMismatch);
        }
        i = i + 1;
    }
    proof {
        assert(all_plain(colsm));
        lemma_cols_model_index(cols@, 0);
    }
    let n = cols[0].len();
    let mut i: usize = 0;
    while i < cols.len()
        invariant
            colsm == cols_model(cols@),
            colsm.len() == cols@.len(),
            !((*function) is MeanHorizontal),
            all_plain(colsm),
            n == colsm[0].row_count(),
            cols@.len() >= 1,
            i <= cols@.len(),
            forall|k: int| 0 <= k < i ==> (#[trigger] colsm[k]).row_count() == n,
        decreases cols@.len() - i,
    {
        proof {
            lemma_cols_model_index(cols@, i as int);
        }
        if cols[i].len() != n {
            proof {
                assert(!all_len(colsm, n as nat));
            }
            return Err(ExprError::LengthMismatch);
        }
        i = i + 1;
    }
    proof {
        assert(all_len(colsm, n as nat));
    }
    match function {
        FunctionExpr::AllHorizontal => fold_rows(RowOp::And, cols, n),
        FunctionExpr::AnyHorizontal => fold_rows(RowOp::Or, cols, n),
        FunctionExpr::MaxHorizontal => fold_rows(RowOp::Max, cols, n),
        FunctionExpr::MinHorizontal => fold_rows(RowOp::Min, cols, n),
        FunctionExpr::SumHorizontal { ignore_nulls } => {
            let ghost ign = *ignore_nulls;
            // The sum's own type check comes before its overflow check.
            let mut j: usize = 0;
            while j < cols.len()
                invariant
                    colsm == cols_model(cols@),
                    colsm.len() == cols@.len(),
                    (*function) matches FunctionExpr::SumHorizontal { ignore_nulls: ig } && ig
                        == ign,
                    all_plain(colsm),
                    all_len(colsm, n as nat),
                    n == colsm[0].row_count(),
                    cols@.len() >= 1,
                    j <= cols@.len(),
                    forall|jj: int, rr: int|
                        0 <= jj < j && 0 <= rr < n ==> is_int_or_null(
                            #[trigger] plain_vals(colsm[jj])[rr],
                        ),
                decreases cols@.len() - j,
            {
                proof {
                    lemma_cols_model_index(cols@, j as int);
                }
                let mut rr: usize = 0;
                while rr < n
                    invariant
                        colsm == cols_model(cols@),
                        colsm.len() == cols@.len(),
                        (*function) matches FunctionExpr::SumHorizontal { ignore_nulls: ig } && ig
                            == ign,
                        all_plain(colsm),
                        all_len(colsm, n as nat),
                        n == colsm[0].row_count(),
                        cols@.len() >= 1,
                        j < cols@.len(),
                        colsm[j as int] == cols@[j as int]@,
                        rr <= n,
                        forall|k: int|
                            0 <= k < rr ==> is_int_or_null(
                                #[trigger] plain_vals(colsm[j as int])[k],
                            ),
                    decreases n - rr,
                {
                    let v = value_at(&cols[j], rr);
                    if !matches!(v, Value::Null | Value::Int(_)) {
                        proof {
                            assert(!is_int_or_null(plain_vals(colsm[j as int])[rr as int]));
                            assert(!cols_int(colsm, n as nat));
                        }
                        return Err(ExprError::TypeMismatch);
                    }
                    rr = rr + 1;
                }
                j = j + 1;
            }
            proof {
                assert(cols_int(colsm, n as nat));
            }
            sum_columns(cols, n, *ignore_nulls)
        },
        FunctionExpr::Coalesce => coalesce_columns(cols, n),
        FunctionExpr::MeanHorizontal { .. } => unreached(),
    }
}

} // verus!
