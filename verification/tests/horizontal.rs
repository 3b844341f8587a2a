use horizontal_expr::builders::{
    all_horizontal, any_horizontal, coalesce, cum_fold_exprs, cum_reduce_exprs, fold_exprs,
    max_horizontal, mean_horizontal, min_horizontal, reduce_exprs, sum_horizontal,
};
use horizontal_expr::column::{Column, ColumnRep, Value};
use horizontal_expr::dtype::{get_supertype, DataType, Field};
use horizontal_expr::error::ExprError;
use horizontal_expr::eval::eval_expr;
use horizontal_expr::expr::{AccumKind, ColumnCombiner, Expr, FunctionExpr, GetOutput};
use horizontal_expr::options::{ApplyOptions, CastOptions, FunctionOptions, OpLabel};
use horizontal_expr::resolver::cum_fold_dtype;

fn int_col(name: &str, vals: &[Option<i64>]) -> Column {
    let values: Vec<Value> = vals
        .iter()
        .map(|v| match v {
            None => Value::Null,
            Some(i) => Value::Int(*i),
        })
        .collect();
    Column::new(name.to_string(), DataType::Int64, values)
}

fn bool_col(name: &str, vals: &[Option<bool>]) -> Column {
    let values: Vec<Value> = vals
        .iter()
        .map(|v| match v {
            None => Value::Null,
            Some(b) => Value::Bool(*b),
        })
        .collect();
    Column::new(name.to_string(), DataType::Boolean, values)
}

fn col_ints(c: &Column) -> Vec<Option<i64>> {
    match &c.rep {
        ColumnRep::Values { values, .. } => values
            .iter()
            .map(|v| match v {
                Value::Null => None,
                Value::Int(i) => Some(*i),
                Value::Bool(_) => panic!("expected an integer column"),
            })
            .collect(),
        ColumnRep::Struct { .. } => panic!("expected a plain column"),
    }
}

fn col_bools(c: &Column) -> Vec<Option<bool>> {
    match &c.rep {
        ColumnRep::Values { values, .. } => values
            .iter()
            .map(|v| match v {
                Value::Null => None,
                Value::Bool(b) => Some(*b),
                Value::Int(_) => panic!("expected a boolean column"),
            })
            .collect(),
        ColumnRep::Struct { .. } => panic!("expected a plain column"),
    }
}

fn struct_fields(c: &Column) -> &Vec<Column> {
    match &c.rep {
        ColumnRep::Struct { fields, .. } => fields,
        ColumnRep::Values { .. } => panic!("expected a struct-shaped column"),
    }
}

/// Adds two integer columns element-wise; a null in either poisons the
/// element. Keeps the accumulator's name.
struct AddCombiner;

impl ColumnCombiner for AddCombiner {
    fn combine(&self, acc: Column, next: Column) -> Result<Option<Column>, ExprError> {
        let a = col_ints(&acc);
        let b = col_ints(&next);
        if a.len() != b.len() {
            return Err(ExprError::LengthMismatch);
        }
        let sums: Vec<Option<i64>> = a
            .iter()
            .zip(b.iter())
            .map(|(x, y)| match (x, y) {
                (Some(x), Some(y)) => Some(x + y),
                _ => None,
            })
            .collect();
        Ok(Some(int_col(&acc.name, &sums)))
    }
}

/// Declines every step: the accumulator never changes.
struct DeclineCombiner;

impl ColumnCombiner for DeclineCombiner {
    fn combine(&self, _acc: Column, _next: Column) -> Result<Option<Column>, ExprError> {
        Ok(None)
    }
}

/// Fails every step.
struct FailCombiner;

impl ColumnCombiner for FailCombiner {
    fn combine(&self, _acc: Column, _next: Column) -> Result<Option<Column>, ExprError> {
        Err(ExprError::TypeMismatch)
    }
}

fn leaf(c: Column) -> Expr<AddCombiner> {
    Expr::Leaf(c)
}

fn expect_empty_inputs<T>(r: Result<T, ExprError>) {
    match r {
        Err(e) => assert_eq!(e, ExprError::EmptyInputs),
        Ok(_) => panic!("an empty input list must be rejected"),
    }
}

#[test]
fn all_any_nonempty_succeed() {
    let e = all_horizontal::<AddCombiner>(vec![leaf(bool_col("a", &[Some(true)]))]).unwrap();
    match &e {
        Expr::Function { input, function, options } => {
            assert_eq!(input.len(), 1);
            assert!(matches!(function, FunctionExpr::AllHorizontal));
            assert!(matches!(options.collect_groups, ApplyOptions::GroupWise));
            assert!(options.flags.wildcard_expansion);
            assert!(options.flags.allow_empty_inputs);
            assert!(!options.flags.returns_scalar);
            assert!(!options.flags.allow_rename);
        }
        _ => panic!("expected a named-function node"),
    }
    let e = any_horizontal::<AddCombiner>(vec![
        leaf(bool_col("a", &[Some(true)])),
        leaf(bool_col("b", &[Some(false)])),
    ])
    .unwrap();
    match &e {
        Expr::Function { input, function, .. } => {
            assert_eq!(input.len(), 2);
            assert!(matches!(function, FunctionExpr::AnyHorizontal));
        }
        _ => panic!("expected a named-function node"),
    }
}

#[test]
fn all_any_empty_fail_eagerly() {
    let e = all_horizontal::<AddCombiner>(vec![]);
    match e {
        Err(err) => {
            assert_eq!(err, ExprError::EmptyInputs);
            assert!(err.is_compute_error());
            assert_eq!(
                err.message(),
                "cannot return empty fold because the number of output rows is unknown"
            );
        }
        Ok(_) => panic!("an empty input list must be rejected"),
    }
    expect_empty_inputs(any_horizontal::<AddCombiner>(vec![]));
}

#[test]
fn minmax_summean_nonempty_succeed() {
    let mk = || vec![leaf(int_col("a", &[Some(1)]))];
    let e = max_horizontal(mk()).unwrap();
    match &e {
        Expr::Function { function, options, .. } => {
            assert!(matches!(function, FunctionExpr::MaxHorizontal));
            assert!(matches!(options.collect_groups, ApplyOptions::ElementWise));
            assert!(options.flags.wildcard_expansion);
            assert!(!options.flags.returns_scalar);
            assert!(options.flags.allow_rename);
        }
        _ => panic!("expected a named-function node"),
    }
    assert!(matches!(
        min_horizontal(mk()).unwrap(),
        Expr::Function { function: FunctionExpr::MinHorizontal, .. }
    ));
    let e = sum_horizontal(mk(), true).unwrap();
    match &e {
        Expr::Function { function, options, .. } => {
            assert!(matches!(
                function,
                FunctionExpr::SumHorizontal { ignore_nulls: true }
            ));
            assert!(!options.flags.allow_rename);
        }
        _ => panic!("expected a named-function node"),
    }
    assert!(matches!(
        mean_horizontal(mk(), false).unwrap(),
        Expr::Function { function: FunctionExpr::MeanHorizontal { ignore_nulls: false }, .. }
    ));
}

#[test]
fn minmax_summean_empty_fail_eagerly() {
    expect_empty_inputs(max_horizontal::<AddCombiner>(vec![]));
    expect_empty_inputs(min_horizontal::<AddCombiner>(vec![]));
    expect_empty_inputs(sum_horizontal::<AddCombiner>(vec![], true));
    expect_empty_inputs(mean_horizontal::<AddCombiner>(vec![], false));
}

#[test]
fn reduce_empty_builds_but_fails_at_evaluation() {
    let e = reduce_exprs(AddCombiner, vec![]);
    match &e {
        Expr::AnonymousFunction { input, function, output_type, options } => {
            assert_eq!(input.len(), 0);
            assert!(matches!(function.kind, AccumKind::Reduce));
            assert_eq!(*output_type, GetOutput::SuperType);
            assert_eq!(options.fmt_str, OpLabel::Reduce);
            assert_eq!(options.fmt_str.text(), "reduce");
            assert!(options.flags.returns_scalar);
        }
        _ => panic!("expected an anonymous-function node"),
    }
    let err = eval_expr(&e).unwrap_err();
    assert_eq!(err, ExprError::NoExpressionsToFold);
    assert!(err.is_compute_error());
    assert_eq!(err.message(), "`reduce` did not have any expressions to fold");
}

#[test]
fn reduce_single_input_is_identity() {
    let e = reduce_exprs(AddCombiner, vec![leaf(int_col("x", &[Some(4), None, Some(6)]))]);
    let out = eval_expr(&e).unwrap();
    assert_eq!(out.name, "x");
    assert_eq!(col_ints(&out), vec![Some(4), None, Some(6)]);
}

#[test]
fn cum_reduce_empty_fails_at_evaluation() {
    let e = cum_reduce_exprs(AddCombiner, vec![]);
    assert_eq!(eval_expr(&e).unwrap_err(), ExprError::NoExpressionsToFold);
}

#[test]
fn fold_empty_returns_accumulator() {
    let acc = int_col("seed", &[Some(7), Some(8)]);
    let e = fold_exprs(leaf(acc), AddCombiner, vec![]);
    let out = eval_expr(&e).unwrap();
    assert_eq!(out.name, "seed");
    assert_eq!(col_ints(&out), vec![Some(7), Some(8)]);

    // The same holds whatever the combining operation is.
    let acc = int_col("seed", &[Some(7), Some(8)]);
    let e = Expr::<DeclineCombiner>::Leaf(acc);
    let e = fold_exprs(e, DeclineCombiner, vec![]);
    let out = eval_expr(&e).unwrap();
    assert_eq!(col_ints(&out), vec![Some(7), Some(8)]);
}

#[test]
fn fold_accumulates_left_to_right() {
    let acc = leaf(int_col("seed", &[Some(0), Some(10)]));
    let e = fold_exprs(
        acc,
        AddCombiner,
        vec![
            leaf(int_col("a", &[Some(1), Some(2)])),
            leaf(int_col("b", &[Some(3), Some(4)])),
        ],
    );
    let out = eval_expr(&e).unwrap();
    assert_eq!(out.name, "seed");
    assert_eq!(col_ints(&out), vec![Some(4), Some(16)]);
}

#[test]
fn fold_declining_steps_keep_accumulator() {
    let acc = Expr::<DeclineCombiner>::Leaf(int_col("seed", &[Some(5)]));
    let e = fold_exprs(
        acc,
        DeclineCombiner,
        vec![
            Expr::<DeclineCombiner>::Leaf(int_col("a", &[Some(1)])),
            Expr::<DeclineCombiner>::Leaf(int_col("b", &[Some(2)])),
        ],
    );
    let out = eval_expr(&e).unwrap();
    assert_eq!(col_ints(&out), vec![Some(5)]);
}

#[test]
fn fold_propagates_combiner_errors() {
    let acc = Expr::<FailCombiner>::Leaf(int_col("seed", &[Some(5)]));
    let e = fold_exprs(
        acc,
        FailCombiner,
        vec![Expr::<FailCombiner>::Leaf(int_col("a", &[Some(1)]))],
    );
    assert_eq!(eval_expr(&e).unwrap_err(), ExprError::TypeMismatch);
}

#[test]
fn cum_fold_with_init_records_three_snapshots() {
    let acc = leaf(int_col("acc", &[Some(1), Some(1)]));
    let e = cum_fold_exprs(
        acc,
        AddCombiner,
        vec![
            leaf(int_col("e1", &[Some(2), Some(2)])),
            leaf(int_col("e2", &[Some(3), Some(3)])),
        ],
        true,
    );
    let out = eval_expr(&e).unwrap();
    let fields = struct_fields(&out);
    assert_eq!(fields.len(), 3);
    assert_eq!(fields[0].name, "acc");
    assert_eq!(fields[1].name, "e1");
    assert_eq!(fields[2].name, "e2");
    assert_eq!(col_ints(&fields[0]), vec![Some(1), Some(1)]);
    assert_eq!(col_ints(&fields[1]), vec![Some(3), Some(3)]);
    assert_eq!(col_ints(&fields[2]), vec![Some(6), Some(6)]);
}

#[test]
fn cum_fold_without_init_records_two_snapshots() {
    let acc = leaf(int_col("acc", &[Some(1), Some(1)]));
    let e = cum_fold_exprs(
        acc,
        AddCombiner,
        vec![
            leaf(int_col("e1", &[Some(2), Some(2)])),
            leaf(int_col("e2", &[Some(3), Some(3)])),
        ],
        false,
    );
    let out = eval_expr(&e).unwrap();
    let fields = struct_fields(&out);
    assert_eq!(fields.len(), 2);
    assert_eq!(fields[0].name, "e1");
    assert_eq!(fields[1].name, "e2");
    assert_eq!(col_ints(&fields[0]), vec![Some(3), Some(3)]);
    assert_eq!(col_ints(&fields[1]), vec![Some(6), Some(6)]);
}

#[test]
fn cum_fold_without_init_and_without_exprs_fails() {
    let acc = leaf(int_col("acc", &[Some(1)]));
    let e = cum_fold_exprs(acc, AddCombiner, vec![], false);
    assert_eq!(eval_expr(&e).unwrap_err(), ExprError::EmptyAccumulation);
}

#[test]
fn cum_reduce_records_seed_and_every_step() {
    let e = cum_reduce_exprs(
        AddCombiner,
        vec![
            leaf(int_col("e1", &[Some(1), Some(10)])),
            leaf(int_col("e2", &[Some(2), Some(20)])),
            leaf(int_col("e3", &[Some(3), Some(30)])),
        ],
    );
    let out = eval_expr(&e).unwrap();
    let fields = struct_fields(&out);
    assert_eq!(fields.len(), 3);
    assert_eq!(fields[0].name, "e1");
    assert_eq!(fields[1].name, "e2");
    assert_eq!(fields[2].name, "e3");
    assert_eq!(col_ints(&fields[0]), vec![Some(1), Some(10)]);
    assert_eq!(col_ints(&fields[1]), vec![Some(3), Some(30)]);
    assert_eq!(col_ints(&fields[2]), vec![Some(6), Some(60)]);
}

#[test]
fn supertype_resolution_round_trip() {
    // The fold/reduce builders resolve their output type by supertype.
    let e = reduce_exprs(AddCombiner, vec![leaf(int_col("x", &[Some(1)]))]);
    let output_type = match &e {
        Expr::AnonymousFunction { output_type, .. } => *output_type,
        _ => panic!("expected an anonymous-function node"),
    };
    let fields = vec![
        Field { name: "a".to_string(), dtype: DataType::Int64 },
        Field { name: "b".to_string(), dtype: DataType::Float64 },
    ];
    let out = output_type.get_field(&fields).unwrap();
    assert_eq!(out.name, "a");
    assert!(matches!(out.dtype, DataType::Float64));

    // The supertype does not depend on the fold order.
    let swapped = vec![
        Field { name: "b".to_string(), dtype: DataType::Float64 },
        Field { name: "a".to_string(), dtype: DataType::Int64 },
    ];
    let out = output_type.get_field(&swapped).unwrap();
    assert!(matches!(out.dtype, DataType::Float64));
}

#[test]
fn supertype_of_two_types() {
    assert!(matches!(
        get_supertype(&DataType::Boolean, &DataType::Int64),
        Some(DataType::Int64)
    ));
    assert!(matches!(
        get_supertype(&DataType::Int64, &DataType::Float64),
        Some(DataType::Float64)
    ));
    assert!(matches!(
        get_supertype(&DataType::Boolean, &DataType::Boolean),
        Some(DataType::Boolean)
    ));
    assert!(get_supertype(&DataType::Struct(vec![]), &DataType::Int64).is_none());
}

#[test]
fn cum_fold_dtype_builds_struct_of_supertype_fields() {
    let fields = vec![
        Field { name: "acc".to_string(), dtype: DataType::Int64 },
        Field { name: "e1".to_string(), dtype: DataType::Int64 },
        Field { name: "e2".to_string(), dtype: DataType::Float64 },
    ];
    let out = cum_fold_dtype().get_field(&fields).unwrap();
    assert_eq!(out.name, "acc");
    match out.dtype {
        DataType::Struct(members) => {
            assert_eq!(members.len(), 3);
            assert_eq!(members[0].name, "acc");
            assert_eq!(members[1].name, "e1");
            assert_eq!(members[2].name, "e2");
            for m in &members {
                assert!(matches!(m.dtype, DataType::Float64));
            }
        }
        _ => panic!("expected a struct-shaped output type"),
    }
}

#[test]
fn resolver_reports_missing_supertype() {
    let fields = vec![
        Field { name: "a".to_string(), dtype: DataType::Struct(vec![]) },
        Field { name: "b".to_string(), dtype: DataType::Int64 },
    ];
    let err = cum_fold_dtype().get_field(&fields).unwrap_err();
    assert_eq!(err, ExprError::NoCommonSupertype);
    assert!(!err.is_compute_error());
    assert_eq!(err.message(), "input types have no common supertype");
}

#[test]
fn coalesce_keeps_first_non_null_per_row() {
    let e = coalesce(vec![
        leaf(int_col("x", &[None, Some(5), None, None])),
        leaf(int_col("y", &[Some(2), Some(6), None, None])),
        leaf(int_col("z", &[Some(3), Some(7), Some(8), None])),
    ]);
    match &e {
        Expr::Function { function, options, .. } => {
            assert!(matches!(function, FunctionExpr::Coalesce));
            assert_eq!(options.cast_options, CastOptions::CastToSupertypes);
            assert!(matches!(options.collect_groups, ApplyOptions::ElementWise));
        }
        _ => panic!("expected a named-function node"),
    }
    let out = eval_expr(&e).unwrap();
    assert_eq!(out.name, "x");
    assert_eq!(col_ints(&out), vec![Some(2), Some(5), Some(8), None]);
    match &out.rep {
        ColumnRep::Values { dtype, .. } => assert!(matches!(dtype, DataType::Int64)),
        _ => panic!("expected a plain column"),
    }
}

#[test]
fn coalesce_casts_to_the_common_supertype() {
    let e = coalesce(vec![
        leaf(bool_col("flag", &[Some(true), None])),
        leaf(int_col("n", &[Some(5), Some(7)])),
    ]);
    let out = eval_expr(&e).unwrap();
    assert_eq!(col_ints(&out), vec![Some(1), Some(7)]);
}

#[test]
fn coalesce_empty_input_fails_at_evaluation() {
    let e = coalesce::<AddCombiner>(vec![]);
    assert_eq!(eval_expr(&e).unwrap_err(), ExprError::EmptyInputs);
}

#[test]
fn coalesce_rejects_mismatched_row_counts() {
    let e = coalesce(vec![
        leaf(int_col("x", &[Some(1), Some(2)])),
        leaf(int_col("y", &[Some(3)])),
    ]);
    assert_eq!(eval_expr(&e).unwrap_err(), ExprError::LengthMismatch);
}

#[test]
fn three_numeric_columns_scenario() {
    let a = &[Some(1), None, Some(3)];
    let b = &[None, Some(2), None];
    let c = &[Some(9), Some(9), Some(9)];

    let e = coalesce(vec![leaf(int_col("a", a)), leaf(int_col("b", b)), leaf(int_col("c", c))]);
    assert_eq!(col_ints(&eval_expr(&e).unwrap()), vec![Some(1), Some(2), Some(3)]);

    let e = sum_horizontal(
        vec![leaf(int_col("a", a)), leaf(int_col("b", b)), leaf(int_col("c", c))],
        true,
    )
    .unwrap();
    let out = eval_expr(&e).unwrap();
    assert_eq!(out.name, "sum");
    assert_eq!(col_ints(&out), vec![Some(10), Some(11), Some(12)]);

    let e = max_horizontal(vec![
        leaf(int_col("a", a)),
        leaf(int_col("b", b)),
        leaf(int_col("c", c)),
    ])
    .unwrap();
    let out = eval_expr(&e).unwrap();
    assert_eq!(out.name, "max");
    assert_eq!(col_ints(&out), vec![Some(9), Some(9), Some(9)]);
}

#[test]
fn sum_without_ignore_nulls_poisons_rows() {
    let e = sum_horizontal(
        vec![
            leaf(int_col("a", &[Some(1), None])),
            leaf(int_col("b", &[Some(2), Some(3)])),
        ],
        false,
    )
    .unwrap();
    assert_eq!(col_ints(&eval_expr(&e).unwrap()), vec![Some(3), None]);
}

#[test]
fn sum_overflow_is_an_error() {
    let e = sum_horizontal(
        vec![
            leaf(int_col("a", &[Some(i64::MAX)])),
            leaf(int_col("b", &[Some(1)])),
        ],
        true,
    )
    .unwrap();
    let err = eval_expr(&e).unwrap_err();
    assert_eq!(err, ExprError::Overflow);
    assert!(err.is_compute_error());
}

#[test]
fn sum_over_booleans_is_a_type_mismatch() {
    let e = sum_horizontal(
        vec![
            leaf(int_col("a", &[Some(1)])),
            leaf(bool_col("b", &[Some(true)])),
        ],
        true,
    )
    .unwrap();
    assert_eq!(eval_expr(&e).unwrap_err(), ExprError::TypeMismatch);
}

#[test]
fn min_horizontal_picks_row_minimum() {
    let e = min_horizontal(vec![
        leaf(int_col("a", &[Some(4), None, None])),
        leaf(int_col("b", &[Some(2), Some(5), None])),
    ])
    .unwrap();
    let out = eval_expr(&e).unwrap();
    assert_eq!(out.name, "min");
    assert_eq!(col_ints(&out), vec![Some(2), Some(5), None]);
}

#[test]
fn all_any_evaluate_over_rows() {
    let c1 = bool_col("p", &[Some(true), Some(true), None]);
    let c2 = bool_col("q", &[None, Some(false), None]);
    let e = all_horizontal(vec![leaf(c1), leaf(c2)]).unwrap();
    let out = eval_expr(&e).unwrap();
    assert_eq!(out.name, "all");
    assert_eq!(col_bools(&out), vec![Some(true), Some(false), None]);

    let c1 = bool_col("p", &[Some(false), Some(true)]);
    let c2 = bool_col("q", &[Some(false), Some(false)]);
    let e = any_horizontal(vec![leaf(c1), leaf(c2)]).unwrap();
    let out = eval_expr(&e).unwrap();
    assert_eq!(out.name, "any");
    assert_eq!(col_bools(&out), vec![Some(false), Some(true)]);
}

#[test]
fn mean_evaluation_is_unsupported_in_this_value_model() {
    let e = mean_horizontal(vec![leaf(int_col("a", &[Some(1)]))], true).unwrap();
    assert_eq!(eval_expr(&e).unwrap_err(), ExprError::Unsupported);
}

#[test]
fn rename_is_pure_metadata() {
    let mut c = int_col("before", &[Some(1), Some(2)]);
    c.rename("after".to_string());
    assert_eq!(c.name, "after");
    assert_eq!(col_ints(&c), vec![Some(1), Some(2)]);
}

#[test]
fn default_options_are_group_wise_and_flagless() {
    let o = FunctionOptions::default();
    assert!(matches!(o.collect_groups, ApplyOptions::GroupWise));
    assert!(!o.flags.wildcard_expansion);
    assert!(!o.flags.returns_scalar);
    assert!(!o.flags.allow_empty_inputs);
    assert!(!o.flags.allow_rename);
    assert_eq!(o.cast_options, CastOptions::Passthrough);
    assert_eq!(o.fmt_str, OpLabel::Unset);
    assert_eq!(o.fmt_str.text(), "");
}

#[test]
fn accumulator_nodes_carry_their_labels() {
    let acc = leaf(int_col("acc", &[Some(1)]));
    let e = fold_exprs(acc, AddCombiner, vec![]);
    match &e {
        Expr::AnonymousFunction { options, output_type, .. } => {
            assert_eq!(options.fmt_str.text(), "fold");
            assert!(options.flags.returns_scalar);
            assert!(options.flags.wildcard_expansion);
            assert!(matches!(options.collect_groups, ApplyOptions::GroupWise));
            assert_eq!(*output_type, GetOutput::SuperType);
        }
        _ => panic!("expected an anonymous-function node"),
    }
    let acc = leaf(int_col("acc", &[Some(1)]));
    let e = cum_fold_exprs(acc, AddCombiner, vec![], true);
    match &e {
        Expr::AnonymousFunction { options, output_type, .. } => {
            assert_eq!(options.fmt_str.text(), "cum_fold");
            assert_eq!(*output_type, GetOutput::CumFoldFields);
        }
        _ => panic!("expected an anonymous-function node"),
    }
    let e = cum_reduce_exprs(AddCombiner, vec![leaf(int_col("x", &[Some(1)]))]);
    match &e {
        Expr::AnonymousFunction { options, .. } => {
            assert_eq!(options.fmt_str.text(), "cum_reduce");
        }
        _ => panic!("expected an anonymous-function node"),
    }
}

#[test]
fn nested_expressions_evaluate_recursively() {
    let inner = fold_exprs(leaf(int_col("seed", &[Some(1), Some(2)])), AddCombiner, vec![]);
    let e = reduce_exprs(
        AddCombiner,
        vec![inner, leaf(int_col("more", &[Some(10), Some(20)]))],
    );
    let out = eval_expr(&e).unwrap();
    assert_eq!(col_ints(&out), vec![Some(11), Some(22)]);
}

#[test]
fn builders_never_mutate_their_inputs() {
    // Embedding an expression moves it by value into the new node; the
    // embedded leaf is carried through evaluation unchanged.
    let e = coalesce(vec![leaf(int_col("x", &[Some(1), None]))]);
    match &e {
        Expr::Function { input, .. } => match &input[0] {
            Expr::Leaf(c) => {
                assert_eq!(c.name, "x");
                assert_eq!(col_ints(c), vec![Some(1), None]);
            }
            _ => panic!("expected the leaf to be embedded unchanged"),
        },
        _ => panic!("expected a named-function node"),
    }
}

#[test]
fn from_columns_checks_the_declared_row_count() {
    let a = int_col("a", &[Some(1), Some(2)]);
    let b = int_col("b", &[Some(3), Some(4)]);
    let s = Column::from_columns("s".to_string(), 2, &vec![a, b]).unwrap();
    assert_eq!(s.name, "s");
    assert_eq!(s.len(), 2);
    let fields = struct_fields(&s);
    assert_eq!(fields.len(), 2);
    assert_eq!(col_ints(&fields[1]), vec![Some(3), Some(4)]);

    let a = int_col("a", &[Some(1), Some(2)]);
    let short = int_col("b", &[Some(3)]);
    let err = Column::from_columns("s".to_string(), 2, &vec![a, short]).unwrap_err();
    assert_eq!(err, ExprError::LengthMismatch);
    assert_eq!(err.message(), "columns have mismatched row counts");
}

#[test]
fn duplicate_copies_name_type_and_values() {
    let a = int_col("a", &[Some(1), None]);
    let d = a.duplicate();
    assert_eq!(d.name, a.name);
    assert_eq!(col_ints(&d), col_ints(&a));
    let s = Column::from_columns("s".to_string(), 2, &vec![a]).unwrap();
    let ds = s.duplicate();
    assert_eq!(ds.name, "s");
    assert_eq!(struct_fields(&ds).len(), 1);
    assert_eq!(col_ints(&struct_fields(&ds)[0]), vec![Some(1), None]);
}
