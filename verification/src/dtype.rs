//! Data types of columns, schema fields, and supertype unification.
//!
//! The type lattice is deliberately small: the three scalar types form the
//! chain `Boolean < Int64 < Float64`, and two scalar types always unify to
//! the higher one. A struct type unifies with nothing, not even itself:
//! nested struct unification is outside this model, so asking for it yields
//! the no-common-supertype outcome.

use vstd::prelude::*;

verus! {

/// The type of a column.
#[derive(Debug)]
pub enum DataType {
    Boolean,
    Int64,
    Float64,
    /// A struct-shaped type: one field per member column.
    Struct(Vec<Field>),
}

/// A (name, type) pair describing one data-less schema slot.
#[derive(Debug)]
pub struct Field {
    pub name: String,
    pub dtype: DataType,
}

/// Mathematical model of a [`DataType`].
pub enum DTypeModel {
    Boolean,
    Int64,
    Float64,
    Struct(Seq<FieldModel>),
}

/// Mathematical model of a [`Field`].
pub struct FieldModel {
    pub name: Seq<char>,
    pub dtype: DTypeModel,
}

pub open spec fn dtype_model(d: DataType) -> DTypeModel
    decreases d,
{
    match d {
        DataType::Boolean => DTypeModel::Boolean,
        DataType::Int64 => DTypeModel::Int64,
        DataType::Float64 => DTypeModel::Float64,
        DataType::Struct(fs) => DTypeModel::Struct(fields_model(fs@)),
    }
}

pub open spec fn fields_model(s: Seq<Field>) -> Seq<FieldModel>
    decreases s,
{
    if s.len() == 0 {
        Seq::empty()
    } else {
        fields_model(s.drop_last()).push(field_model(s.last()))
    }
}

pub open spec fn field_model(f: Field) -> FieldModel
    decreases f,
{
    FieldModel { name: f.name@, dtype: dtype_model(f.dtype) }
}

impl View for DataType {
    type V = DTypeModel;

    open spec fn view(&self) -> DTypeModel {
        dtype_model(*self)
    }
}

impl View for Field {
    type V = FieldModel;

    open spec fn view(&self) -> FieldModel {
        field_model(*self)
    }
}

/// Position of a scalar type in the unification chain.
pub open spec fn rank_of(d: DTypeModel) -> int {
    match d {
        DTypeModel::Boolean => 0,
        DTypeModel::Int64 => 1,
        DTypeModel::Float64 => 2,
        DTypeModel::Struct(_) => 3,
    }
}

/// Whether a type takes part in supertype unification.
pub open spec fn is_scalar(d: DTypeModel) -> bool {
    !(d is Struct)
}

/// The minimal common type of two types, or `None` when there is none.
pub open spec fn super_type_of(a: DTypeModel, b: DTypeModel) -> Option<DTypeModel> {
    if a is Struct || b is Struct {
        None
    } else if rank_of(a) >= rank_of(b) {
        Some(a)
    } else {
        Some(b)
    }
}

/// Left-to-right supertype fold over a non-empty list of types.
pub open spec fn fold_super(ts: Seq<DTypeModel>) -> Option<DTypeModel>
    decreases ts.len(),
{
    if ts.len() == 0 {
        None
    } else if ts.len() == 1 {
        Some(ts[0])
    } else {
        match fold_super(ts.drop_last()) {
            Option::None => None,
            Option::Some(st) => super_type_of(st, ts.last()),
        }
    }
}

pub open spec fn opt_dtype_model(o: Option<DataType>) -> Option<DTypeModel> {
    match o {
        Option::None => None,
        Option::Some(d) => Some(d@),
    }
}

/// Compute the common supertype of two types, the two-argument unification
/// consumed by the output-type resolvers.
pub fn get_supertype(a: &DataType, b: &DataType) -> (r: Option<DataType>)
    ensures
        opt_dtype_model(r) == super_type_of(a@, b@),
{
    match (a, b) {
        (DataType::Struct(_), _) => None,
        (_, DataType::Struct(_)) => None,
        (DataType::Float64, _) => Some(DataType::Float64),
        (_, DataType::Float64) => Some(DataType::Float64),
        (DataType::Int64, _) => Some(DataType::Int64),
        (_, DataType::Int64) => Some(DataType::Int64),
        (DataType::Boolean, DataType::Boolean) => Some(DataType::Boolean),
    }
}

/// Copy a data type; the copy has the same model.
pub fn dup_dtype(d: &DataType) -> (r: DataType)
    ensures
        r@ == d@,
    decreases *d,
{
    match d {
        DataType::Boolean => DataType::Boolean,
        DataType::Int64 => DataType::Int64,
        DataType::Float64 => DataType::Float64,
        DataType::Struct(fs) => {
            let mut out: Vec<Field> = Vec::new();
            let mut i: usize = 0;
            while i < fs.len()
                invariant
                    *d is Struct,
                    *fs == (*d)->Struct_0,
                    i <= fs.len(),
                    out@.len() == i,
                    forall|j: int| 0 <= j < i ==> field_model(#[trigger] out@[j]) == field_model(
                        fs@[j],
                    ),
                decreases fs.len() - i,
            {
                proof {
                    assert(decreases_to!(*d => (*d)->Struct_0));
                    assert(decreases_to!(*fs => fs@));
                    assert(decreases_to!(fs@ => fs@[i as int]));
                    assert(decreases_to!(fs@[i as int] => fs@[i as int].dtype));
                }
                let f = &fs[i];
                let nf = Field { name: f.name.clone(), dtype: dup_dtype(&f.dtype) };
                proof {
                    assert(field_model(nf) == field_model(fs@[i as int]));
                }
                out.push(nf);
                i = i + 1;
            }
            proof {
                lemma_fields_model_elementwise(out@, fs@);
            }
            DataType::Struct(out)
        },
    }
}

/// Two field lists with pointwise-equal field models have equal models.
pub proof fn lemma_fields_model_elementwise(a: Seq<Field>, b: Seq<Field>)
    requires
        a.len() == b.len(),
        forall|j: int| 0 <= j < a.len() ==> field_model(#[trigger] a[j]) == field_model(b[j]),
    ensures
        fields_model(a) == fields_model(b),
    decreases a.len(),
{
    if a.len() > 0 {
        lemma_fields_model_elementwise(a.drop_last(), b.drop_last());
    }
}

/// The model of a field list is pointwise the model of its fields.
pub proof fn lemma_fields_model_index(s: Seq<Field>, i: int)
    requires
        0 <= i < s.len(),
    ensures
        fields_model(s).len() == s.len(),
        fields_model(s)[i] == field_model(s[i]),
    decreases s.len(),
{
    lemma_fields_model_len(s);
    if i < s.len() - 1 {
        lemma_fields_model_index(s.drop_last(), i);
    }
}

pub proof fn lemma_fields_model_len(s: Seq<Field>)
    ensures
        fields_model(s).len() == s.len(),
    decreases s.len(),
{
    if s.len() > 0 {
        lemma_fields_model_len(s.drop_last());
    }
}

} // verus!
