//! Sequences made by running over another sequence and laying end to end
//! what each of its items gives.

use vstd::prelude::*;
use vstd::seq_lib::{lemma_flatten_concat, lemma_multiset_commutative};

verus! {

/// What the items of a sequence give, laid end to end in the order of the
/// items.
pub open spec fn flat_map<A, B>(items: Seq<A>, each: spec_fn(A) -> Seq<B>) -> Seq<B> {
    items.map_values(each).flatten()
}

/// Nothing gives nothing.
pub proof fn lemma_flat_map_empty<A, B>(each: spec_fn(A) -> Seq<B>)
    ensures
        flat_map(Seq::<A>::empty(), each) == Seq::<B>::empty(),
{
    assert(Seq::<A>::empty().map_values(each) == Seq::<Seq<B>>::empty());
}

/// One item gives what it gives.
pub proof fn lemma_flat_map_one<A, B>(item: A, each: spec_fn(A) -> Seq<B>)
    ensures
        flat_map(seq![item], each) == each(item),
{
    let mapped = seq![item].map_values(each);
    assert(mapped == seq![each(item)]);
    mapped.lemma_flatten_singleton();
}

/// Two runs, one after the other, give what the first gives and then what
/// the second gives.
pub proof fn lemma_flat_map_concat<A, B>(first: Seq<A>, second: Seq<A>, each: spec_fn(A) -> Seq<B>)
    ensures
        flat_map(first + second, each) == flat_map(first, each) + flat_map(second, each),
{
    assert((first + second).map_values(each) == first.map_values(each) + second.map_values(each));
    lemma_flatten_concat(first.map_values(each), second.map_values(each));
}

/// One more item adds what it gives at the end.
pub proof fn lemma_flat_map_push<A, B>(items: Seq<A>, item: A, each: spec_fn(A) -> Seq<B>)
    ensures
        flat_map(items.push(item), each) == flat_map(items, each) + each(item),
{
    assert(items.push(item) == items + seq![item]);
    lemma_flat_map_concat(items, seq![item], each);
    lemma_flat_map_one(item, each);
}

/// What a sequence gives is what its items before a place give, then what
/// the item at that place gives, then what the items after it give.
pub proof fn lemma_flat_map_split<A, B>(items: Seq<A>, place: int, each: spec_fn(A) -> Seq<B>)
    requires
        0 <= place < items.len(),
    ensures
        flat_map(items, each) == flat_map(items.take(place), each) + each(items[place]) + flat_map(
            items.skip(place + 1),
            each,
        ),
        flat_map(items.remove(place), each) == flat_map(items.take(place), each) + flat_map(
            items.skip(place + 1),
            each,
        ),
{
    let before = items.take(place);
    let after = items.skip(place + 1);
    assert(items == before + seq![items[place]] + after);
    assert(items.remove(place) == before + after);
    lemma_flat_map_concat(before + seq![items[place]], after, each);
    lemma_flat_map_concat(before, seq![items[place]], each);
    lemma_flat_map_one(items[place], each);
    lemma_flat_map_concat(before, after, each);
}

/// An item that gives nothing can be left out.
pub proof fn lemma_flat_map_skip<A, B>(items: Seq<A>, place: int, each: spec_fn(A) -> Seq<B>)
    requires
        0 <= place < items.len(),
        each(items[place]).len() == 0,
    ensures
        flat_map(items, each) == flat_map(items.remove(place), each),
{
    lemma_flat_map_split(items, place, each);
    assert(flat_map(items.take(place), each) + each(items[place]) == flat_map(
        items.take(place),
        each,
    ));
}

/// The same items in another order give the same things, in another order.
pub proof fn lemma_flat_map_reordered<A, B>(first: Seq<A>, second: Seq<A>, each: spec_fn(A) -> Seq<B>)
    requires
        first.to_multiset() == second.to_multiset(),
    ensures
        flat_map(first, each).to_multiset() == flat_map(second, each).to_multiset(),
    decreases first.len(),
{
    broadcast use vstd::seq_lib::group_to_multiset_ensures;

    assert(first.len() == first.to_multiset().len());
    assert(second.len() == second.to_multiset().len());
    if first.len() == 0 {
        assert(first == second);
    } else {
        let last = first.last();
        let shorter = first.drop_last();
        assert(first == shorter.push(last));
        assert(second.to_multiset().count(last) > 0);
        assert(second.contains(last));
        let place = choose|place: int| 0 <= place < second.len() && second[place] == last;
        let rest = second.remove(place);
        assert(shorter == first.remove(first.len() - 1));
        assert(shorter.to_multiset() == rest.to_multiset());
        lemma_flat_map_reordered(shorter, rest, each);
        lemma_flat_map_push(shorter, last, each);
        lemma_flat_map_split(second, place, each);
        let left = flat_map(second.take(place), each);
        let right = flat_map(second.skip(place + 1), each);
        lemma_multiset_commutative(flat_map(shorter, each), each(last));
        lemma_multiset_commutative(left, right);
        lemma_multiset_commutative(left + each(last), right);
        lemma_multiset_commutative(left, each(last));
        assert(flat_map(second, each).to_multiset() == flat_map(rest, each).to_multiset().add(
            each(last).to_multiset(),
        ));
    }
}

/// Whatever is among the things given was given by one of the items.
pub proof fn lemma_flat_map_member<A, B>(items: Seq<A>, each: spec_fn(A) -> Seq<B>, thing: B)
    requires
        flat_map(items, each).contains(thing),
    ensures
        exists|place: int| 0 <= place < items.len() && (#[trigger] each(items[place])).contains(thing),
    decreases items.len(),
{
    if items.len() == 0 {
        lemma_flat_map_empty(each);
    } else {
        let shorter = items.drop_last();
        let last = items.last();
        assert(items == shorter.push(last));
        lemma_flat_map_push(shorter, last, each);
        let given = flat_map(shorter, each);
        let all = given + each(last);
        let at = choose|at: int| 0 <= at < all.len() && all[at] == thing;
        if at < given.len() {
            assert(given[at] == thing);
            lemma_flat_map_member(shorter, each, thing);
            let place = choose|place: int|
                0 <= place < shorter.len() && (#[trigger] each(shorter[place])).contains(thing);
            assert(items[place] == shorter[place]);
        } else {
            assert(each(last)[at - given.len()] == thing);
            assert(each(items[items.len() - 1]).contains(thing));
        }
    }
}

} // verus!
