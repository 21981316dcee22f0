//! Decoding each item of a sequence, up to the first failure.

use vstd::prelude::*;
use crate::error::ParseErrorView;

verus! {

/// Applies `f` to each item in order. The result is the first error that `f`
/// gives, or else the sequence of its results.
pub open spec fn try_map<A, B>(items: Seq<A>, f: spec_fn(A) -> Result<B, ParseErrorView>) -> Result<
    Seq<B>,
    ParseErrorView,
>
    decreases items.len(),
{
    if items.len() == 0 {
        Ok(Seq::empty())
    } else {
        match try_map(items.drop_last(), f) {
            Err(e) => Err(e),
            Ok(done) => match f(items.last()) {
                Err(e) => Err(e),
                Ok(x) => Ok(done.push(x)),
            },
        }
    }
}

/// One more item: the result for the first `i + 1` items follows from the
/// result for the first `i` and from item `i`.
pub proof fn lemma_try_map_step<A, B>(
    items: Seq<A>,
    f: spec_fn(A) -> Result<B, ParseErrorView>,
    i: int,
)
    requires
        0 <= i < items.len(),
    ensures
        try_map(items.take(i + 1), f) == match try_map(items.take(i), f) {
            Err(e) => Err(e),
            Ok(done) => match f(items[i]) {
                Err(e) => Err(e),
                Ok(x) => Ok(done.push(x)),
            },
        },
{
    assert(items.take(i + 1).drop_last() =~= items.take(i));
}

/// A failure on a prefix is the failure on the whole sequence.
pub proof fn lemma_try_map_fails<A, B>(
    items: Seq<A>,
    f: spec_fn(A) -> Result<B, ParseErrorView>,
    i: int,
)
    requires
        0 <= i <= items.len(),
        try_map(items.take(i), f) is Err,
    ensures
        try_map(items, f) == try_map(items.take(i), f),
    decreases items.len() - i,
{
    if i == items.len() {
        assert(items.take(i) =~= items);
    } else {
        lemma_try_map_step(items, f, i);
        lemma_try_map_fails(items, f, i + 1);
    }
}

/// Success means that every item decodes, and then the results stand in the
/// order of the items.
pub proof fn lemma_try_map_ok<A, B>(items: Seq<A>, f: spec_fn(A) -> Result<B, ParseErrorView>)
    ensures
        try_map(items, f) is Ok <==> (forall|i: int| 0 <= i < items.len() ==> (#[trigger] f(items[i])) is Ok),
        try_map(items, f) matches Ok(out) ==> out.len() == items.len() && (forall|i: int|
            0 <= i < items.len() ==> f(items[i]) == Ok::<B, ParseErrorView>(#[trigger] out[i])),
    decreases items.len(),
{
    if items.len() > 0 {
        let front = items.drop_last();
        lemma_try_map_ok(front, f);
        assert forall|i: int| 0 <= i < front.len() implies front[i] == items[i] by {}
    }
}

/// A failure is the error of the first item that does not decode.
pub proof fn lemma_try_map_err<A, B>(items: Seq<A>, f: spec_fn(A) -> Result<B, ParseErrorView>)
    requires
        try_map(items, f) is Err,
    ensures
        exists|j: int|
            0 <= j < items.len() && (#[trigger] f(items[j])) == Err::<B, ParseErrorView>(
                try_map(items, f)->Err_0,
            ) && (forall|i: int| 0 <= i < j ==> (#[trigger] f(items[i])) is Ok),
    decreases items.len(),
{
    let front = items.drop_last();
    if try_map(front, f) is Err {
        lemma_try_map_err(front, f);
        let j = choose|j: int|
            0 <= j < front.len() && (#[trigger] f(front[j])) == Err::<B, ParseErrorView>(
                try_map(front, f)->Err_0,
            ) && (forall|i: int| 0 <= i < j ==> (#[trigger] f(front[i])) is Ok);
        assert forall|i: int| 0 <= i < j implies (#[trigger] f(items[i])) is Ok by {
            assert(front[i] == items[i]);
        }
        assert(front[j] == items[j]);
    } else {
        lemma_try_map_ok(front, f);
        assert forall|i: int| 0 <= i < front.len() implies (#[trigger] f(items[i])) is Ok by {
            assert(front[i] == items[i]);
        }
    }
}

} // verus!
