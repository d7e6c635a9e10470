//! Lists of checks, of which the first that fails gives the reason.

use vstd::prelude::*;

verus! {

/// The first reason in a list of optional reasons.
pub open spec fn first_reason(reasons: Seq<Option<Seq<char>>>) -> Option<Seq<char>>
    decreases reasons.len(),
{
    if reasons.len() == 0 {
        None
    } else {
        match first_reason(reasons.drop_last()) {
            Some(reason) => Some(reason),
            None => reasons.last(),
        }
    }
}

/// There is no first reason exactly where there is none at all.
pub proof fn first_reason_is_none(reasons: Seq<Option<Seq<char>>>)
    ensures
        first_reason(reasons) is None <==> (forall|i: int|
            0 <= i < reasons.len() ==> #[trigger] reasons[i] is None),
    decreases reasons.len(),
{
    if reasons.len() > 0 {
        first_reason_is_none(reasons.drop_last());
        assert forall|i: int|
            first_reason(reasons) is None && 0 <= i < reasons.len() implies #[trigger] reasons[i] is None by {
            if i < reasons.len() - 1 {
                assert(reasons.drop_last()[i] == reasons[i]);
            }
        }
        if forall|i: int| 0 <= i < reasons.len() ==> #[trigger] reasons[i] is None {
            assert forall|i: int|
                0 <= i < reasons.drop_last().len() implies #[trigger] reasons.drop_last()[i] is None by {
                assert(reasons.drop_last()[i] == reasons[i]);
            }
            assert(reasons[reasons.len() - 1] is None);
        }
    }
}

/// A reason with none before it is the first.
pub proof fn first_reason_is_at(reasons: Seq<Option<Seq<char>>>, at: int)
    requires
        0 <= at < reasons.len(),
        reasons[at] is Some,
        forall|i: int| 0 <= i < at ==> #[trigger] reasons[i] is None,
    ensures
        first_reason(reasons) == reasons[at],
    decreases reasons.len(),
{
    let init = reasons.drop_last();
    assert forall|i: int| 0 <= i < init.len() implies #[trigger] init[i] == reasons[i] by {}
    if at == reasons.len() - 1 {
        first_reason_is_none(init);
    } else {
        first_reason_is_at(init, at);
    }
}

} // verus!
