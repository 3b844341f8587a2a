//! Columns: named, typed value sequences for one group of rows.
//!
//! Renaming a column is a pure metadata operation. A struct-shaped column
//! holds one member column per field, all of one declared row count.

use vstd::prelude::*;
use crate::dtype::{DataType, DTypeModel, dtype_model};
use crate::error::ExprError;

verus! {

/// One cell of a column. `Null` marks a missing value. The model carries
/// no fractional values: a `Float64`-typed column can hold only nulls.
#[derive(Clone, Copy, Debug, PartialEq, Eq, Structural)]
pub enum Value {
    Null,
    Bool(bool),
    Int(i64),
}

/// A named column of values for one group of rows.
#[derive(Debug)]
pub struct Column {
    pub name: String,
    pub rep: ColumnRep,
}

/// The payload of a column: plain values, or member columns of a
/// struct-shaped column.
#[derive(Debug)]
pub enum ColumnRep {
    Values { dtype: DataType, values: Vec<Value> },
    Struct { length: usize, fields: Vec<Column> },
}

/// Mathematical model of a [`Column`].
pub struct ColModel {
    pub name: Seq<char>,
    pub rep: RepModel,
}

/// Mathematical model of a [`ColumnRep`].
pub enum RepModel {
    Values { dtype: DTypeModel, values: Seq<Value> },
    Struct { length: nat, fields: Seq<ColModel> },
}

pub open spec fn col_model(c: Column) -> ColModel
    decreases c,
{
    ColModel { name: c.name@, rep: rep_model(c.rep) }
}

pub open spec fn rep_model(r: ColumnRep) -> RepModel
    decreases r,
{
    match r {
        ColumnRep::Values { dtype, values } => RepModel::Values {
            dtype: dtype_model(dtype),
            values: values@,
        },
        ColumnRep::Struct { length, fields } => RepModel::Struct {
            length: length as nat,
            fields: cols_model(fields@),
        },
    }
}

pub open spec fn cols_model(s: Seq<Column>) -> Seq<ColModel>
    decreases s,
{
    if s.len() == 0 {
        Seq::empty()
    } else {
        cols_model(s.drop_last()).push(col_model(s.last()))
    }
}

impl View for Column {
    type V = ColModel;

    open spec fn view(&self) -> ColModel {
        col_model(*self)
    }
}

impl ColModel {
    /// Row count of the modelled column.
    pub open spec fn row_count(self) -> nat {
        match self.rep {
            RepModel::Values { values, .. } => values.len(),
            RepModel::Struct { length, .. } => length,
        }
    }
}

pub proof fn lemma_cols_model_len(s: Seq<Column>)
    ensures
        cols_model(s).len() == s.len(),
    decreases s.len(),
{
    if s.len() > 0 {
        lemma_cols_model_len(s.drop_last());
    }
}

pub proof fn lemma_cols_model_index(s: Seq<Column>, i: int)
    requires
        0 <= i < s.len(),
    ensures
        cols_model(s).len() == s.len(),
        cols_model(s)[i] == col_model(s[i]),
    decreases s.len(),
{
    lemma_cols_model_len(s);
    if i < s.len() - 1 {
        lemma_cols_model_index(s.drop_last(), i);
    }
}

pub proof fn lemma_cols_model_push(s: Seq<Column>, c: Column)
    ensures
        cols_model(s.push(c)) == cols_model(s).push(col_model(c)),
{
    assert(s.push(c).drop_last() =~= s);
    assert(s.push(c).last() == c);
}

/// Two column lists with pointwise-equal models have equal models.
pub proof fn lemma_cols_model_elementwise(a: Seq<Column>, b: Seq<Column>)
    requires
        a.len() == b.len(),
        forall|j: int| 0 <= j < a.len() ==> col_model(#[trigger] a[j]) == col_model(b[j]),
    ensures
        cols_model(a) == cols_model(b),
    decreases a.len(),
{
    if a.len() > 0 {
        lemma_cols_model_elementwise(a.drop_last(), b.drop_last());
    }
}

impl Column {
    /// Build a plain column from a name, a type and its values.
    pub fn new(name: String, dtype: DataType, values: Vec<Value>) -> (r: Column)
        ensures
            r@ == (ColModel {
                name: name@,
                rep: RepModel::Values { dtype: dtype@, values: values@ },
            }),
    {
        Column { name, rep: ColumnRep::Values { dtype, values } }
    }

    /// The number of rows this column holds.
    pub fn len(&self) -> (r: usize)
        ensures
            r == self@.row_count(),
    {
        match &self.rep {
            ColumnRep::Values { values, .. } => values.len(),
            ColumnRep::Struct { length, .. } => *length,
        }
    }

    /// Give the column a new name; the data is untouched.
    pub fn rename(&mut self, name: String)
        ensures
            final(self)@ == (ColModel { name: name@, rep: old(self)@.rep }),
    {
        self.name = name;
    }

    /// Copy the column; the copy has the same model.
    pub fn duplicate(&self) -> (r: Column)
        ensures
            r@ == self@,
        decreases *self,
    {
        let name = self.name.clone();
        match &self.rep {
            ColumnRep::Values { dtype, values } => {
                let vs = values.clone();
                proof {
                    assert(vs@ =~= values@);
                }
                Column {
                    name,
                    rep: ColumnRep::Values { dtype: crate::dtype::dup_dtype(dtype), values: vs },
                }
            },
            ColumnRep::Struct { length, fields } => {
                let mut out: Vec<Column> = Vec::new();
                let mut i: usize = 0;
                while i < fields.len()
                    invariant
                        self.rep is Struct,
                        *fields == self.rep->Struct_fields,
                        i <= fields.len(),
                        out@.len() == i,
                        forall|j: int| 0 <= j < i ==> col_model(#[trigger] out@[j]) == col_model(
                            fields@[j],
                        ),
                    decreases fields.len() - i,
                {
                    proof {
                        assert(decreases_to!(*self => self.rep));
                        assert(decreases_to!(self.rep => self.rep->Struct_fields));
                        assert(decreases_to!(*fields => fields@));
                        assert(decreases_to!(fields@ => fields@[i as int]));
                    }
                    let d = fields[i].duplicate();
                    out.push(d);
                    i = i + 1;
                }
                proof {
                    lemma_cols_model_elementwise(out@, fields@);
                }
                Column { name, rep: ColumnRep::Struct { length: *length, fields: out } }
            },
        }
    }

    /// Assemble a struct-shaped column from member columns, given the
    /// declared row count. Fails when any member disagrees with it.
    pub fn from_columns(name: String, length: usize, columns: &Vec<Column>) -> (r: Result<
        Column,
        ExprError,
    >)
        ensures
            r is Ok <==> (forall|i: int|
                0 <= i < columns@.len() ==> (#[trigger] columns@[i])@.row_count() == length),
            r matches Ok(c) ==> c@ == (ColModel {
                name: name@,
                rep: RepModel::Struct { length: length as nat, fields: cols_model(columns@) },
            }),
            r matches Err(e) ==> e == ExprError::LengthMismatch,
    {
        let mut i: usize = 0;
        while i < columns.len()
            invariant
                i <= columns@.len(),
                forall|j: int|
                    0 <= j < i ==> (#[trigger] columns@[j])@.row_count() == length,
            decreases columns@.len() - i,
        {
            if columns[i].len() != length {
                return Err(ExprError::LengthMismatch);
            }
            i = i + 1;
        }
        let mut fields: Vec<Column> = Vec::new();
        let mut i: usize = 0;
        while i < columns.len()
            invariant
                i <= columns@.len(),
                fields@.len() == i,
                forall|j: int| 0 <= j < i ==> col_model(#[trigger] fields@[j]) == col_model(
                    columns@[j],
                ),
            decreases columns@.len() - i,
        {
            let d = columns[i].duplicate();
            fields.push(d);
            i = i + 1;
        }
        proof {
            lemma_cols_model_elementwise(fields@, columns@);
        }
        Ok(Column { name, rep: ColumnRep::Struct { length, fields } })
    }
}

} // verus!
