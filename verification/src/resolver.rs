//! Output-type resolution: computing a function node's result schema from
//! its input fields, without touching data.
//!
//! Resolution is pure: it may run arbitrarily many times during planning.
//! When two input types cannot be unified, the resolver reports the
//! type-resolution error to its caller instead of aborting.

use vstd::prelude::*;
use crate::dtype::{
    DTypeModel, DataType, Field, FieldModel, dup_dtype, field_model, fields_model, fold_super,
    get_supertype, lemma_fields_model_index, lemma_fields_model_len, super_type_of,
};
use crate::error::ExprError;
use crate::expr::GetOutput;

verus! {

/// The types of a field list, in order.
pub open spec fn field_types(fs: Seq<FieldModel>) -> Seq<DTypeModel> {
    fs.map_values(|f: FieldModel| f.dtype)
}

/// What resolving `g` over the input fields `fs` yields: the supertype
/// resolver names the output after the first input and types it with the
/// left-to-right supertype fold; the struct field-mapping resolver wraps
/// one field per input, each keeping its own name but carrying the one
/// common supertype.
pub open spec fn resolved_field(g: GetOutput, fs: Seq<FieldModel>) -> Result<
    FieldModel,
    ExprError,
> {
    if fs.len() == 0 {
        Err(ExprError::EmptyInputs)
    } else {
        match fold_super(field_types(fs)) {
            Option::None => Err(ExprError::NoCommonSupertype),
            Option::Some(st) => match g {
                GetOutput::SuperType => Ok(FieldModel { name: fs[0].name, dtype: st }),
                GetOutput::CumFoldFields => Ok(
                    FieldModel {
                        name: fs[0].name,
                        dtype: DTypeModel::Struct(
                            fs.map_values(|f: FieldModel| FieldModel { name: f.name, dtype: st }),
                        ),
                    },
                ),
            },
        }
    }
}

pub open spec fn res_field_model(r: Result<Field, ExprError>) -> Result<FieldModel, ExprError> {
    match r {
        Result::Ok(f) => Ok(field_model(f)),
        Result::Err(e) => Err(e),
    }
}

/// One unification step extends the supertype fold by one type.
pub proof fn lemma_fold_super_step(ts: Seq<DTypeModel>, k: int)
    requires
        1 <= k < ts.len(),
    ensures
        fold_super(ts.take(k + 1)) == (match fold_super(ts.take(k)) {
            Option::None => Option::<DTypeModel>::None,
            Option::Some(st) => super_type_of(st, ts[k]),
        }),
{
    assert(ts.take(k + 1).drop_last() =~= ts.take(k));
    assert(ts.take(k + 1).last() == ts[k]);
}

/// Once a prefix has no common supertype, the whole list has none.
pub proof fn lemma_fold_super_none(ts: Seq<DTypeModel>, k: int)
    requires
        1 <= k <= ts.len(),
        fold_super(ts.take(k)) is None,
    ensures
        fold_super(ts) is None,
    decreases ts.len() - k,
{
    if k == ts.len() {
        assert(ts.take(k) =~= ts);
    } else {
        lemma_fold_super_step(ts, k);
        lemma_fold_super_none(ts, k + 1);
    }
}

/// The struct field-mapping resolver of the cumulative fold builders.
pub fn cum_fold_dtype() -> (r: GetOutput)
    ensures
        r == GetOutput::CumFoldFields,
{
    GetOutput::CumFoldFields
}

impl GetOutput {
    /// Resolve the output field from the input fields. Pure; fails with
    /// the type-resolution error when two input types cannot be unified,
    /// and with the empty-input error when no field is given.
    pub fn get_field(&self, fields: &Vec<Field>) -> (r: Result<Field, ExprError>)
        ensures
            res_field_model(r) == resolved_field(*self, fields_model(fields@)),
    {
        let ghost fsm = fields_model(fields@);
        let ghost types = field_types(fsm);
        proof {
            lemma_fields_model_len(fields@);
        }
        if fields.len() == 0 {
            return Err(ExprError::EmptyInputs);
        }
        let mut st = dup_dtype(&fields[0].dtype);
        proof {
            lemma_fields_model_index(fields@, 0);
            assert(types.take(1) =~= seq![types[0]]);
            assert(fold_super(types.take(1)) == Some(st@));
        }
        let mut i: usize = 1;
        while i < fields.len()
            invariant
                1 <= i <= fields@.len(),
                fsm == fields_model(fields@),
                types == field_types(fsm),
                types.len() == fields@.len(),
                fold_super(types.take(i as int)) == Some(st@),
            decreases fields@.len() - i,
        {
            proof {
                lemma_fields_model_index(fields@, i as int);
                lemma_fold_super_step(types, i as int);
            }
            match get_supertype(&st, &fields[i].dtype) {
                Option::None => {
                    proof {
                        lemma_fold_super_none(types, i + 1);
                    }
                    return Err(ExprError::NoCommonSupertype);
                },
                Option::Some(s) => {
                    st = s;
                },
            }
            i = i + 1;
        }
        proof {
            assert(types.take(types.len() as int) =~= types);
        }
        match self {
            GetOutput::SuperType => {
                let name = fields[0].name.clone();
                proof {
                    lemma_fields_model_index(fields@, 0);
                }
                Ok(Field { name, dtype: st })
            },
            GetOutput::CumFoldFields => {
                let mut out: Vec<Field> = Vec::new();
                let mut j: usize = 0;
                while j < fields.len()
                    invariant
                        fsm == fields_model(fields@),
                        j <= fields@.len(),
                        fsm.len() == fields@.len(),
                        out@.len() == j,
                        forall|k: int|
                            0 <= k < j ==> field_model(#[trigger] out@[k]) == (FieldModel {
                                name: fsm[k].name,
                                dtype: st@,
                            }),
                    decreases fields@.len() - j,
                {
                    proof {
                        lemma_fields_model_index(fields@, j as int);
                    }
                    let nf = Field { name: fields[j].name.clone(), dtype: dup_dtype(&st) };
                    out.push(nf);
                    j = j + 1;
                }
                let name = fields[0].name.clone();
                proof {
                    lemma_fields_model_index(fields@, 0);
                    lemma_fields_model_len(out@);
                    assert forall|k: int| 0 <= k < out@.len() implies fields_model(out@)[k]
                        == fsm.map_values(
                        |f: FieldModel| FieldModel { name: f.name, dtype: st@ },
                    )[k] by {
                        lemma_fields_model_index(out@, k);
                    }
                    assert(fields_model(out@) =~= fsm.map_values(
                        |f: FieldModel| FieldModel { name: f.name, dtype: st@ },
                    ));
                }
                Ok(Field { name, dtype: DataType::Struct(out) })
            },
        }
    }
}

} // verus!
