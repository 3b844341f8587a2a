//! The evaluation-policy descriptor attached to every function node.
//!
//! The executor must honor every flag present rather than infer behavior
//! from the operation's name; the builders construct these combinations
//! verbatim and their contracts pin each one down.

use vstd::prelude::*;

verus! {

/// When a function may be invoked: independently per row, or only with an
/// entire group's columns at once.
#[derive(Clone, Copy, Debug, PartialEq, Eq, Structural)]
pub enum ApplyOptions {
    ElementWise,
    GroupWise,
}

/// Named policy flags; all clear by default.
#[derive(Clone, Copy, Debug, PartialEq, Eq, Structural)]
pub struct FunctionFlags {
    /// Inputs denoting "all columns" must be expanded to concrete column
    /// references before invocation.
    pub wildcard_expansion: bool,
    /// The function yields one value per group regardless of group size.
    pub returns_scalar: bool,
    /// The function tolerates zero input expressions.
    pub allow_empty_inputs: bool,
    /// The output column's name may come from evaluation instead of a
    /// fixed default.
    pub allow_rename: bool,
}

/// How heterogeneous input types are coerced before invocation.
#[derive(Clone, Copy, Debug, PartialEq, Eq, Structural)]
pub enum CastOptions {
    /// No coercion.
    Passthrough,
    /// Cast every input to the common supertype of all inputs.
    CastToSupertypes,
}

/// The display label of an operation, for diagnostics and plan printing.
#[derive(Clone, Copy, Debug, PartialEq, Eq, Structural)]
pub enum OpLabel {
    Unset,
    Fold,
    Reduce,
    CumFold,
    CumReduce,
}

impl OpLabel {
    /// The label's printable text.
    pub open spec fn spec_text(self) -> Seq<char> {
        match self {
            OpLabel::Unset => ""@,
            OpLabel::Fold => "fold"@,
            OpLabel::Reduce => "reduce"@,
            OpLabel::CumFold => "cum_fold"@,
            OpLabel::CumReduce => "cum_reduce"@,
        }
    }

    /// Runtime accessor mirroring [`OpLabel::spec_text`].
    pub fn text(&self) -> (r: &'static str)
        ensures
            r@ == self.spec_text(),
    {
        match self {
            OpLabel::Unset => "",
            OpLabel::Fold => "fold",
            OpLabel::Reduce => "reduce",
            OpLabel::CumFold => "cum_fold",
            OpLabel::CumReduce => "cum_reduce",
        }
    }
}

/// The immutable evaluation-policy descriptor of a function node.
#[derive(Clone, Copy, Debug, PartialEq, Eq, Structural)]
pub struct FunctionOptions {
    pub collect_groups: ApplyOptions,
    pub flags: FunctionFlags,
    pub cast_options: CastOptions,
    pub fmt_str: OpLabel,
}

impl Default for FunctionFlags {
    /// All flags clear.
    fn default() -> (r: Self)
        ensures
            r == (FunctionFlags {
                wildcard_expansion: false,
                returns_scalar: false,
                allow_empty_inputs: false,
                allow_rename: false,
            }),
    {
        FunctionFlags {
            wildcard_expansion: false,
            returns_scalar: false,
            allow_empty_inputs: false,
            allow_rename: false,
        }
    }
}

/// The default policy: group-wise, no flags, no coercion, no label.
pub open spec fn default_options() -> FunctionOptions {
    FunctionOptions {
        collect_groups: ApplyOptions::GroupWise,
        flags: FunctionFlags {
            wildcard_expansion: false,
            returns_scalar: false,
            allow_empty_inputs: false,
            allow_rename: false,
        },
        cast_options: CastOptions::Passthrough,
        fmt_str: OpLabel::Unset,
    }
}

impl Default for FunctionOptions {
    /// The default policy of [`default_options`].
    fn default() -> (r: Self)
        ensures
            r == default_options(),
    {
        FunctionOptions {
            collect_groups: ApplyOptions::GroupWise,
            flags: FunctionFlags {
                wildcard_expansion: false,
                returns_scalar: false,
                allow_empty_inputs: false,
                allow_rename: false,
            },
            cast_options: CastOptions::Passthrough,
            fmt_str: OpLabel::Unset,
        }
    }
}

} // verus!
