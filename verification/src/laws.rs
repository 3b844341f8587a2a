//! Laws of supertype resolution.
//!
//! Over scalar types the unification chain makes the supertype fold a
//! maximum, so resolving a fold/reduce node's output type reproduces the
//! common supertype of all its input types, independent of fold order.

use vstd::prelude::*;
use crate::dtype::{DTypeModel, FieldModel, fold_super, is_scalar, rank_of};
use crate::expr::GetOutput;
use crate::resolver::{field_types, resolved_field};

verus! {

/// Over a non-empty list of scalar types the supertype fold succeeds and
/// yields an element of the list of maximal rank.
pub proof fn lemma_fold_super_scalar_max(ts: Seq<DTypeModel>)
    requires
        ts.len() > 0,
        forall|i: int| 0 <= i < ts.len() ==> is_scalar(#[trigger] ts[i]),
    ensures
        fold_super(ts) matches Some(st) && ts.contains(st) && forall|i: int|
            0 <= i < ts.len() ==> rank_of(#[trigger] ts[i]) <= rank_of(st),
    decreases ts.len(),
{
    if ts.len() == 1 {
        assert(ts[0] == ts.last());
        assert(ts.contains(ts[0]));
    } else {
        lemma_fold_super_scalar_max(ts.drop_last());
        let prev = fold_super(ts.drop_last())->Some_0;
        let st = fold_super(ts)->Some_0;
        assert(ts.drop_last().contains(prev));
        let w = choose|i: int| 0 <= i < ts.drop_last().len() && ts.drop_last()[i] == prev;
        assert(ts[w] == prev);
        if st == prev {
            assert(ts.contains(st));
        } else {
            assert(st == ts.last());
            assert(ts[ts.len() - 1] == st);
            assert(ts.contains(st));
        }
        assert forall|i: int| 0 <= i < ts.len() implies rank_of(#[trigger] ts[i]) <= rank_of(
            st,
        ) by {
            if i < ts.len() - 1 {
                assert(ts.drop_last()[i] == ts[i]);
            }
        }
    }
}

/// Two scalar types of one rank are the same type.
pub proof fn lemma_rank_injective_on_scalars(a: DTypeModel, b: DTypeModel)
    requires
        is_scalar(a),
        is_scalar(b),
        rank_of(a) == rank_of(b),
    ensures
        a == b,
{
}

/// The supertype fold over scalar types does not depend on the order of
/// the list: any rearrangement folds to the same supertype.
pub proof fn lemma_fold_super_permutation(a: Seq<DTypeModel>, b: Seq<DTypeModel>)
    requires
        a.len() > 0,
        forall|i: int| 0 <= i < a.len() ==> is_scalar(#[trigger] a[i]),
        a.to_multiset() == b.to_multiset(),
    ensures
        fold_super(a) == fold_super(b),
{
    a.to_multiset_ensures();
    b.to_multiset_ensures();
    assert(b.len() == a.len());
    assert forall|i: int| 0 <= i < b.len() implies is_scalar(#[trigger] b[i]) by {
        assert(b.contains(b[i]));
        assert(b.to_multiset().count(b[i]) > 0);
        assert(a.contains(b[i]));
        let w = choose|k: int| 0 <= k < a.len() && a[k] == b[i];
        assert(is_scalar(a[w]));
    }
    lemma_fold_super_scalar_max(a);
    lemma_fold_super_scalar_max(b);
    let sa = fold_super(a)->Some_0;
    let sb = fold_super(b)->Some_0;
    assert(a.to_multiset().count(sa) > 0);
    assert(b.contains(sa));
    let wa = choose|k: int| 0 <= k < b.len() && b[k] == sa;
    assert(rank_of(sa) <= rank_of(sb));
    assert(b.to_multiset().count(sb) > 0);
    assert(a.contains(sb));
    let wb = choose|k: int| 0 <= k < a.len() && a[k] == sb;
    assert(rank_of(sb) <= rank_of(sa));
    lemma_rank_injective_on_scalars(sa, sb);
}

/// Round trip of the supertype resolver: resolving the output type of a
/// fold/reduce node reproduces the common supertype of all its input
/// field types, under the first input's name.
pub proof fn lemma_supertype_resolution_round_trip(fs: Seq<FieldModel>)
    requires
        fs.len() > 0,
        forall|i: int| 0 <= i < fs.len() ==> is_scalar((#[trigger] fs[i]).dtype),
    ensures
        resolved_field(GetOutput::SuperType, fs) matches Ok(out) && out.name == fs[0].name
            && Some(out.dtype) == fold_super(field_types(fs)),
{
    assert forall|i: int| 0 <= i < field_types(fs).len() implies is_scalar(
        #[trigger] field_types(fs)[i],
    ) by {
        assert(field_types(fs)[i] == fs[i].dtype);
    }
    lemma_fold_super_scalar_max(field_types(fs));
}

} // verus!
