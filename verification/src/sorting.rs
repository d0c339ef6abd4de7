//! Stable sorting by a strict weak order.

use vstd::prelude::*;

verus! {

/// A strict weak order on what values of `T` hold.
pub trait Order<T: DeepView>: Sized {
    /// Whether `a` comes before `b`.
    spec fn before(a: T::V, b: T::V) -> bool;

    /// No two items come before each other.
    proof fn asymmetric(a: T::V, b: T::V)
        ensures
            Self::before(a, b) ==> !Self::before(b, a),
    ;

    /// What does not come before an item does not come before its successors' equals.
    proof fn weak(a: T::V, b: T::V, c: T::V)
        requires
            !Self::before(b, a),
            !Self::before(c, b),
        ensures
            !Self::before(c, a),
    ;

    /// Tests whether `a` comes before `b`.
    fn is_before(a: &T, b: &T) -> (result: bool)
        ensures
            result == Self::before(a.deep_view(), b.deep_view()),
    ;
}

/// `items` with `item` put behind everything that it does not come before.
pub open spec fn inserted<T: DeepView, O: Order<T>>(items: Seq<T::V>, item: T::V) -> Seq<T::V>
    decreases items.len(),
{
    if items.len() > 0 && O::before(item, items.last()) {
        inserted::<T, O>(items.drop_last(), item).push(items.last())
    } else {
        items.push(item)
    }
}

/// `items` in order, with equal items in the order in which they stood.
pub open spec fn sorted<T: DeepView, O: Order<T>>(items: Seq<T::V>) -> Seq<T::V>
    decreases items.len(),
{
    if items.len() == 0 {
        items
    } else {
        inserted::<T, O>(sorted::<T, O>(items.drop_last()), items.last())
    }
}

/// Whether no item comes before one that stands in front of it.
pub open spec fn in_order<T: DeepView, O: Order<T>>(items: Seq<T::V>) -> bool {
    forall|i: int, j: int|
        0 <= i < j < items.len() ==> !O::before(#[trigger] items[j], #[trigger] items[i])
}

proof fn lemma_inserted<T: DeepView, O: Order<T>>(items: Seq<T::V>, item: T::V)
    requires
        in_order::<T, O>(items),
    ensures
        in_order::<T, O>(inserted::<T, O>(items, item)),
        inserted::<T, O>(items, item).len() == items.len() + 1,
        inserted::<T, O>(items, item).to_multiset() == items.to_multiset().insert(item),
        forall|k: int|
            0 <= k <= items.len() ==> {
                ||| #[trigger] inserted::<T, O>(items, item)[k] == item
                ||| items.contains(inserted::<T, O>(items, item)[k])
            },
    decreases items.len(),
{
    broadcast use vstd::seq_lib::group_to_multiset_ensures;

    let result = inserted::<T, O>(items, item);
    if items.len() > 0 && O::before(item, items.last()) {
        let shorter = items.drop_last();
        let last = items.last();
        lemma_inserted::<T, O>(shorter, item);
        let inner = inserted::<T, O>(shorter, item);
        assert(items =~= shorter.push(last));
        assert forall|k: int| 0 <= k <= items.len() implies {
            ||| #[trigger] result[k] == item
            ||| items.contains(result[k])
        } by {
            if k < items.len() {
                assert(result[k] == inner[k]);
                if inner[k] != item {
                    let m = choose|m: int| 0 <= m < shorter.len() && shorter[m] == inner[k];
                    assert(items[m] == inner[k]);
                }
            } else {
                assert(items[items.len() - 1] == last);
            }
        }
        assert forall|i: int, j: int| 0 <= i < j < result.len() implies !O::before(
            #[trigger] result[j],
            #[trigger] result[i],
        ) by {
            if j < inner.len() {
                assert(result[j] == inner[j] && result[i] == inner[i]);
            } else {
                assert(result[j] == last);
                assert(result[i] == inner[i]);
                if inner[i] == item {
                    O::asymmetric(item, last);
                } else {
                    let m = choose|m: int| 0 <= m < shorter.len() && shorter[m] == inner[i];
                    assert(items[m] == inner[i]);
                    assert(items[items.len() - 1] == last);
                }
            }
        }
        assert(result.to_multiset() =~= items.to_multiset().insert(item));
    } else {
        assert forall|i: int, j: int| 0 <= i < j < result.len() implies !O::before(
            #[trigger] result[j],
            #[trigger] result[i],
        ) by {
            if j == items.len() {
                assert(!O::before(item, items.last()));
                if i < items.len() - 1 {
                    assert(!O::before(items[items.len() - 1], items[i]));
                    O::weak(items[i], items.last(), item);
                }
            }
        }
        assert forall|k: int| 0 <= k <= items.len() implies {
            ||| #[trigger] result[k] == item
            ||| items.contains(result[k])
        } by {
            if k < items.len() {
                assert(items[k] == result[k]);
            }
        }
    }
}

/// A sorted list is in order and holds the same items, each as often.
pub proof fn sorting_orders_and_keeps_items<T: DeepView, O: Order<T>>(items: Seq<T::V>)
    ensures
        in_order::<T, O>(sorted::<T, O>(items)),
        sorted::<T, O>(items).len() == items.len(),
        sorted::<T, O>(items).to_multiset() == items.to_multiset(),
    decreases items.len(),
{
    broadcast use vstd::seq_lib::group_to_multiset_ensures;

    if items.len() > 0 {
        sorting_orders_and_keeps_items::<T, O>(items.drop_last());
        lemma_inserted::<T, O>(sorted::<T, O>(items.drop_last()), items.last());
        assert(items =~= items.drop_last().push(items.last()));
    }
}

/// Sorting leaves a list that is in order as it is.
pub proof fn sorting_keeps_ordered_lists<T: DeepView, O: Order<T>>(items: Seq<T::V>)
    requires
        in_order::<T, O>(items),
    ensures
        sorted::<T, O>(items) == items,
    decreases items.len(),
{
    if items.len() > 0 {
        let shorter = items.drop_last();
        assert forall|i: int, j: int| 0 <= i < j < shorter.len() implies !O::before(
            #[trigger] shorter[j],
            #[trigger] shorter[i],
        ) by {
            assert(shorter[j] == items[j] && shorter[i] == items[i]);
        }
        sorting_keeps_ordered_lists::<T, O>(shorter);
        assert(shorter.push(items.last()) =~= items);
        if shorter.len() > 0 {
            assert(!O::before(items[items.len() - 1], items[items.len() - 2]));
        }
    }
}

proof fn lemma_inserted_at<T: DeepView, O: Order<T>>(items: Seq<T::V>, item: T::V, at: int)
    requires
        0 <= at <= items.len(),
        forall|i: int| at <= i < items.len() ==> O::before(item, #[trigger] items[i]),
        at > 0 ==> !O::before(item, items[at - 1]),
    ensures
        inserted::<T, O>(items, item) == items.insert(at, item),
    decreases items.len(),
{
    if at < items.len() {
        assert(O::before(item, items[items.len() - 1]));
        let shorter = items.drop_last();
        assert forall|i: int| at <= i < shorter.len() implies O::before(
            item,
            #[trigger] shorter[i],
        ) by {
            assert(shorter[i] == items[i]);
        }
        lemma_inserted_at::<T, O>(shorter, item, at);
        assert(shorter.insert(at, item).push(items.last()) =~= items.insert(at, item));
    } else {
        assert(items.insert(at, item) =~= items.push(item));
    }
}

/// Sorts a list; equal items keep their order.
pub fn stable_sort<T: DeepView, O: Order<T>>(items: Vec<T>) -> (result: Vec<T>)
    ensures
        result.deep_view() == sorted::<T, O>(items.deep_view()),
{
    let ghost all = items.deep_view();
    let ghost given = items@;
    let mut rest = items;
    let mut result: Vec<T> = Vec::new();
    assert(all.take(0) =~= Seq::<T::V>::empty());
    assert(result.deep_view() =~= Seq::<T::V>::empty());
    assert(given.skip(0) =~= given);
    while rest.len() > 0
        invariant
            all.len() == given.len(),
            forall|i: int| 0 <= i < given.len() ==> #[trigger] all[i] == given[i].deep_view(),
            rest@.len() <= given.len(),
            rest@ == given.skip(given.len() - rest@.len()),
            result.deep_view() == sorted::<T, O>(all.take(all.len() - rest@.len())),
        decreases rest@.len(),
    {
        let ghost done = given.len() - rest@.len();
        let item = rest.remove(0);
        assert(item == given[done as int]);
        assert(rest@ =~= given.skip(done + 1));
        let mut at: usize = result.len();
        while at > 0 && O::is_before(&item, &result[at - 1])
            invariant
                at <= result@.len(),
                forall|i: int|
                    at <= i < result@.len() ==> O::before(
                        item.deep_view(),
                        #[trigger] result.deep_view()[i],
                    ),
            decreases at,
        {
            at = at - 1;
        }
        let ghost before_model = result.deep_view();
        proof {
            lemma_inserted_at::<T, O>(result.deep_view(), item.deep_view(), at as int);
            assert(all.take(done + 1).drop_last() =~= all.take(done as int));
            assert(all.take(done + 1).last() == item.deep_view());
        }
        result.insert(at, item);
        assert(result.deep_view() =~= before_model.insert(at as int, item.deep_view()));
    }
    assert(all.take(all.len() as int) =~= all);
    result
}

} // verus!
