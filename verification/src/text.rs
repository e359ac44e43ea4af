//! Joining the pieces that the items of a sequence contribute.

use vstd::prelude::*;

verus! {

/// The pieces that `part` makes of the items, one after the other.
pub open spec fn joined<A, B>(items: Seq<A>, part: spec_fn(A) -> Seq<B>) -> Seq<B> {
    items.map_values(part).flatten()
}

/// Nothing joins to nothing.
pub proof fn lemma_joined_empty<A, B>(part: spec_fn(A) -> Seq<B>)
    ensures
        joined(Seq::<A>::empty(), part) == Seq::<B>::empty(),
{
}

/// One more item adds its piece at the end.
pub proof fn lemma_joined_push<A, B>(items: Seq<A>, item: A, part: spec_fn(A) -> Seq<B>)
    ensures
        joined(items.push(item), part) == joined(items, part) + part(item),
{
    assert(items.push(item).map_values(part) =~= items.map_values(part).push(part(item)));
    items.map_values(part).lemma_flatten_push(part(item));
}

/// Joining the first `n + 1` items adds the piece of item `n` to the first `n`.
pub proof fn lemma_joined_take<A, B>(items: Seq<A>, n: int, part: spec_fn(A) -> Seq<B>)
    requires
        0 <= n < items.len(),
    ensures
        joined(items.take(n + 1), part) == joined(items.take(n), part) + part(items[n]),
{
    assert(items.take(n + 1) =~= items.take(n).push(items[n]));
    lemma_joined_push(items.take(n), items[n], part);
}

/// Two runs of items join to their two joined texts, one after the other.
pub proof fn lemma_joined_add<A, B>(first: Seq<A>, second: Seq<A>, part: spec_fn(A) -> Seq<B>)
    ensures
        joined(first + second, part) == joined(first, part) + joined(second, part),
    decreases second.len(),
{
    if second.len() == 0 {
        assert(first + second =~= first);
        lemma_joined_empty(part);
        assert(joined(first, part) + Seq::<B>::empty() =~= joined(first, part));
    } else {
        let init = second.drop_last();
        let last = second.last();
        assert(first + second =~= (first + init).push(last));
        assert(second =~= init.push(last));
        lemma_joined_push(first + init, last, part);
        lemma_joined_push(init, last, part);
        lemma_joined_add(first, init, part);
        assert(joined(first, part) + (joined(init, part) + part(last)) =~= (joined(first, part)
            + joined(init, part)) + part(last));
    }
}

/// Three items join to their three pieces.
pub proof fn lemma_joined_three<A, B>(a: A, b: A, c: A, part: spec_fn(A) -> Seq<B>)
    ensures
        joined(seq![a, b, c], part) == part(a) + part(b) + part(c),
{
    let none = Seq::<A>::empty();
    lemma_joined_empty(part);
    lemma_joined_push(none, a, part);
    lemma_joined_push(none.push(a), b, part);
    lemma_joined_push(none.push(a).push(b), c, part);
    assert(seq![a, b, c] =~= none.push(a).push(b).push(c));
    assert(Seq::<B>::empty() + part(a) =~= part(a));
}

/// Four items join to their four pieces.
pub proof fn lemma_joined_four<A, B>(a: A, b: A, c: A, d: A, part: spec_fn(A) -> Seq<B>)
    ensures
        joined(seq![a, b, c, d], part) == part(a) + part(b) + part(c) + part(d),
{
    lemma_joined_three(a, b, c, part);
    lemma_joined_push(seq![a, b, c], d, part);
    assert(seq![a, b, c, d] =~= seq![a, b, c].push(d));
}

} // verus!
