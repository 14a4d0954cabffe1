//! Converting the items of a sequence one by one, stopping at the first item
//! that cannot be converted.

use vstd::prelude::*;

verus! {

/// Applies `f` to the items from first to last. The result is the sequence of
/// what `f` gave, or the error of the first item that `f` refuses.
pub open spec fn try_map<A, B, E>(items: Seq<A>, f: spec_fn(A) -> Result<B, E>) -> Result<
    Seq<B>,
    E,
>
    decreases items.len(),
{
    if items.len() == 0 {
        Ok(Seq::empty())
    } else {
        match try_map(items.drop_last(), f) {
            Err(error) => Err(error),
            Ok(done) => match f(items.last()) {
                Err(error) => Err(error),
                Ok(item) => Ok(done.push(item)),
            },
        }
    }
}

/// The index of the first item that `f` refuses, or the length of `items` if
/// there is none.
pub open spec fn first_refused<A, B, E>(items: Seq<A>, f: spec_fn(A) -> Result<B, E>) -> int
    decreases items.len(),
{
    if items.len() == 0 {
        0
    } else if first_refused(items.drop_last(), f) < items.len() - 1 {
        first_refused(items.drop_last(), f)
    } else if f(items.last()) is Err {
        items.len() - 1
    } else {
        items.len() as int
    }
}

/// `first_refused` is the least index whose item `f` refuses.
pub proof fn lemma_first_refused<A, B, E>(items: Seq<A>, f: spec_fn(A) -> Result<B, E>)
    ensures
        0 <= first_refused(items, f) <= items.len(),
        forall|i: int| 0 <= i < first_refused(items, f) ==> f(#[trigger] items[i]) is Ok,
        first_refused(items, f) < items.len() ==> f(items[first_refused(items, f)]) is Err,
    decreases items.len(),
{
    if items.len() > 0 {
        let front = items.drop_last();
        lemma_first_refused(front, f);
        assert forall|i: int| 0 <= i < first_refused(items, f) implies f(
            #[trigger] items[i],
        ) is Ok by {
            if i < front.len() {
                assert(front[i] == items[i]);
            }
        }
        if first_refused(front, f) < front.len() {
            assert(front[first_refused(front, f)] == items[first_refused(front, f)]);
        }
    }
}

/// What `try_map` returns, item by item: with no refused item, the results of
/// all items in order; otherwise the error of the first refused item.
pub proof fn lemma_try_map<A, B, E>(items: Seq<A>, f: spec_fn(A) -> Result<B, E>)
    ensures
        match try_map(items, f) {
            Ok(done) => {
                &&& first_refused(items, f) == items.len()
                &&& done.len() == items.len()
                &&& forall|i: int|
                    0 <= i < items.len() ==> f(#[trigger] items[i]) == Ok::<B, E>(done[i])
            },
            Err(error) => {
                &&& first_refused(items, f) < items.len()
                &&& f(items[first_refused(items, f)]) == Err::<B, E>(error)
            },
        },
    decreases items.len(),
{
    lemma_first_refused(items, f);
    if items.len() > 0 {
        let front = items.drop_last();
        lemma_try_map(front, f);
        lemma_first_refused(front, f);
        match try_map(front, f) {
            Ok(done) => {
                match f(items.last()) {
                    Ok(item) => {
                        let all = done.push(item);
                        assert forall|i: int| 0 <= i < items.len() implies f(
                            #[trigger] items[i],
                        ) == Ok::<B, E>(all[i]) by {
                            if i < front.len() {
                                assert(front[i] == items[i]);
                            }
                        }
                    },
                    Err(_) => {},
                }
            },
            Err(_) => {
                assert(front[first_refused(front, f)] == items[first_refused(front, f)]);
            },
        }
    }
}

/// One more item: what `try_map` gives for the first `n + 1` items follows
/// from what it gives for the first `n` and from what `f` gives for item `n`.
pub proof fn lemma_try_map_step<A, B, E>(items: Seq<A>, f: spec_fn(A) -> Result<B, E>, n: int)
    requires
        0 <= n < items.len(),
    ensures
        try_map(items.take(n + 1), f) == match try_map(items.take(n), f) {
            Err(error) => Err::<Seq<B>, E>(error),
            Ok(done) => match f(items[n]) {
                Err(error) => Err(error),
                Ok(item) => Ok(done.push(item)),
            },
        },
{
    assert(items.take(n + 1).drop_last() =~= items.take(n));
}

/// An error among the first `n` items is the error of the whole sequence.
pub proof fn lemma_try_map_stops<A, B, E>(items: Seq<A>, f: spec_fn(A) -> Result<B, E>, n: int)
    requires
        0 <= n <= items.len(),
        try_map(items.take(n), f) is Err,
    ensures
        try_map(items, f) == try_map(items.take(n), f),
    decreases items.len() - n,
{
    if n < items.len() {
        lemma_try_map_step(items, f, n);
        lemma_try_map_stops(items, f, n + 1);
    } else {
        assert(items.take(n) =~= items);
    }
}

} // verus!
