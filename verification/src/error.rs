//! Errors raised by the builders, by type resolution and by evaluation.

use vstd::prelude::*;

verus! {

/// The error value surfaced by this crate.
///
/// Two timing classes exist. Construction-time errors (`EmptyInputs`) come
/// from the built-in horizontal builders when handed no expressions.
/// Evaluation-time errors (`NoExpressionsToFold`, `EmptyAccumulation`,
/// `LengthMismatch`, `TypeMismatch`, `Overflow`, `Unsupported`) come from
/// running a built node. `NoCommonSupertype` is the type-resolution error:
/// the inputs' types cannot be unified.
#[derive(Clone, Copy, Debug, PartialEq, Eq, Structural)]
pub enum ExprError {
    /// A built-in horizontal aggregate was given zero input expressions,
    /// so the number of output rows would be unknowable.
    EmptyInputs,
    /// A reduction was evaluated over zero input columns.
    NoExpressionsToFold,
    /// A cumulative fold recorded no snapshot: the initial value was
    /// excluded and no fold step produced one.
    EmptyAccumulation,
    /// Columns of unequal row counts were combined.
    LengthMismatch,
    /// Two input types have no common supertype.
    NoCommonSupertype,
    /// A value of the wrong kind appeared in a typed row operation.
    TypeMismatch,
    /// A horizontal sum left the representable integer range.
    Overflow,
    /// The operation's result cannot be carried by this value model.
    Unsupported,
}

impl ExprError {
    /// Whether this error belongs to the computation class, as opposed to
    /// the type-resolution class.
    pub open spec fn spec_is_compute_error(self) -> bool {
        !(self is NoCommonSupertype)
    }

    /// Runtime test mirroring [`ExprError::spec_is_compute_error`].
    pub fn is_compute_error(&self) -> (r: bool)
        ensures
            r == self.spec_is_compute_error(),
    {
        !matches!(self, ExprError::NoCommonSupertype)
    }

    /// The diagnostic text of this error.
    pub open spec fn spec_message(self) -> Seq<char> {
        match self {
            ExprError::EmptyInputs => "cannot return empty fold because the number of output rows is unknown"@,
            ExprError::NoExpressionsToFold => "`reduce` did not have any expressions to fold"@,
            ExprError::EmptyAccumulation => "cumulative fold recorded no snapshot columns"@,
            ExprError::LengthMismatch => "columns have mismatched row counts"@,
            ExprError::NoCommonSupertype => "input types have no common supertype"@,
            ExprError::TypeMismatch => "value kind does not match the operation's type"@,
            ExprError::Overflow => "horizontal sum overflowed the integer range"@,
            ExprError::Unsupported => "result is not representable in this value model"@,
        }
    }

    /// Runtime accessor for the diagnostic text.
    pub fn message(&self) -> (m: &'static str)
        ensures
            m@ == self.spec_message(),
    {
        match self {
            ExprError::EmptyInputs => "cannot return empty fold because the number of output rows is unknown",
            ExprError::NoExpressionsToFold => "`reduce` did not have any expressions to fold",
            ExprError::EmptyAccumulation => "cumulative fold recorded no snapshot columns",
            ExprError::LengthMismatch => "columns have mismatched row counts",
            ExprError::NoCommonSupertype => "input types have no common supertype",
            ExprError::TypeMismatch => "value kind does not match the operation's type",
            ExprError::Overflow => "horizontal sum overflowed the integer range",
            ExprError::Unsupported => "result is not representable in this value model",
        }
    }
}

} // verus!
