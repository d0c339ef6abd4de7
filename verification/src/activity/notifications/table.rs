//! Notifications by id, in ascending order of id.
//!
//! They stand in a list rather than in a map, since they are also changed where
//! they stand, one by its id and all of them in turn.

use vstd::prelude::*;

use crate::activity::notifications::model::{ActiveNotification, ActiveNotificationModel};

verus! {

/// Whether ids ascend, so that none stands twice.
pub open spec fn is_table(items: Seq<ActiveNotificationModel>) -> bool {
    forall|i: int, j: int| 0 <= i < j < items.len() ==> #[trigger] items[i].id < #[trigger] items[j].id
}

/// Whether a notification has an id.
pub open spec fn has_id(items: Seq<ActiveNotificationModel>, id: u32) -> bool {
    exists|i: int| 0 <= i < items.len() && (#[trigger] items[i]).id == id
}

/// The notification that has an id.
pub open spec fn item_of(items: Seq<ActiveNotificationModel>, id: u32) -> Option<
    ActiveNotificationModel,
> {
    if has_id(items, id) {
        Some(items[place_of(items, id)])
    } else {
        None
    }
}

/// Where the notification with an id stands.
pub open spec fn place_of(items: Seq<ActiveNotificationModel>, id: u32) -> int {
    choose|i: int| 0 <= i < items.len() && (#[trigger] items[i]).id == id
}

/// A table with a notification in the place of the one that has its id, else in
/// the place that its id gives it.
pub open spec fn with_item(items: Seq<ActiveNotificationModel>, item: ActiveNotificationModel)
    -> Seq<ActiveNotificationModel>
    decreases items.len(),
{
    if items.len() == 0 || items[0].id > item.id {
        seq![item] + items
    } else if items[0].id == item.id {
        seq![item] + items.skip(1)
    } else {
        seq![items[0]] + with_item(items.skip(1), item)
    }
}

/// A table without the notification that has an id.
pub open spec fn without_id(items: Seq<ActiveNotificationModel>, id: u32) -> Seq<
    ActiveNotificationModel,
>
    decreases items.len(),
{
    if items.len() == 0 {
        items
    } else if items[0].id == id {
        items.skip(1)
    } else {
        seq![items[0]] + without_id(items.skip(1), id)
    }
}

proof fn lemma_table_skip(items: Seq<ActiveNotificationModel>)
    requires
        is_table(items),
        items.len() > 0,
    ensures
        is_table(items.skip(1)),
{
    let rest = items.skip(1);
    assert forall|i: int, j: int| 0 <= i < j < rest.len() implies #[trigger] rest[i].id
        < #[trigger] rest[j].id by {
        assert(items[i + 1].id < items[j + 1].id);
    }
}

/// Where an id stands in a table, or would stand.
pub open spec fn is_place(items: Seq<ActiveNotificationModel>, id: u32, at: int) -> bool {
    &&& 0 <= at <= items.len()
    &&& forall|i: int| 0 <= i < at ==> (#[trigger] items[i]).id < id
    &&& forall|i: int| at <= i < items.len() ==> (#[trigger] items[i]).id >= id
}

/// What putting in and taking out do, in terms of the place of an id.
pub(crate) proof fn lemma_place(
    items: Seq<ActiveNotificationModel>,
    item: ActiveNotificationModel,
    at: int,
)
    requires
        is_table(items),
        is_place(items, item.id, at),
    ensures
        has_id(items, item.id) <==> at < items.len() && items[at].id == item.id,
        has_id(items, item.id) ==> item_of(items, item.id) == Some(items[at]),
        with_item(items, item) == if has_id(items, item.id) {
            items.update(at, item)
        } else {
            items.insert(at, item)
        },
        without_id(items, item.id) == if has_id(items, item.id) {
            items.remove(at)
        } else {
            items
        },
    decreases items.len(),
{
    if has_id(items, item.id) {
        let k = place_of(items, item.id);
        assert(items[k].id == item.id);
        if k < at {
            assert(false);
        }
        if k > at {
            assert(items[at].id < items[k].id);
            assert(false);
        }
    }
    if at < items.len() && items[at].id == item.id {
        assert(has_id(items, item.id));
    }
    if items.len() > 0 {
        let rest = items.skip(1);
        if at > 0 {
            lemma_table_skip(items);
            assert(is_place(rest, item.id, at - 1)) by {
                assert forall|i: int| 0 <= i < at - 1 implies (#[trigger] rest[i]).id < item.id by {
                    assert(rest[i] == items[i + 1]);
                }
                assert forall|i: int| at - 1 <= i < rest.len() implies (#[trigger] rest[i]).id
                    >= item.id by {
                    assert(rest[i] == items[i + 1]);
                }
            }
            lemma_place(rest, item, at - 1);
            assert(items[0].id < item.id);
            assert(has_id(rest, item.id) <==> has_id(items, item.id)) by {
                if at < items.len() {
                    assert(rest[at - 1] == items[at]);
                }
            }
            if has_id(items, item.id) {
                assert(seq![items[0]] + rest.update(at - 1, item) =~= items.update(at, item));
                assert(seq![items[0]] + rest.remove(at - 1) =~= items.remove(at));
            } else {
                assert(seq![items[0]] + rest.insert(at - 1, item) =~= items.insert(at, item));
                assert(seq![items[0]] + rest =~= items);
            }
        } else {
            assert(items[0].id >= item.id);
            if items[0].id == item.id {
                assert(seq![item] + rest =~= items.update(0, item));
                assert(rest =~= items.remove(0));
            } else {
                assert(seq![item] + items =~= items.insert(0, item));
                lemma_absent(items, item.id);
            }
        }
    } else {
        assert(seq![item] + items =~= items.insert(0, item));
    }
}

proof fn lemma_absent(items: Seq<ActiveNotificationModel>, id: u32)
    requires
        forall|i: int| 0 <= i < items.len() ==> (#[trigger] items[i]).id != id,
    ensures
        without_id(items, id) == items,
    decreases items.len(),
{
    if items.len() > 0 {
        let rest = items.skip(1);
        assert forall|i: int| 0 <= i < rest.len() implies (#[trigger] rest[i]).id != id by {
            assert(rest[i] == items[i + 1]);
        }
        lemma_absent(rest, id);
        assert(seq![items[0]] + rest =~= items);
    }
}

/// Where an id stands in a table, or would stand.
pub open spec fn some_place(items: Seq<ActiveNotificationModel>, id: u32) -> int
    decreases items.len(),
{
    if items.len() == 0 || items[0].id >= id {
        0
    } else {
        1 + some_place(items.skip(1), id)
    }
}

pub(crate) proof fn lemma_some_place(items: Seq<ActiveNotificationModel>, id: u32)
    requires
        is_table(items),
    ensures
        is_place(items, id, some_place(items, id)),
    decreases items.len(),
{
    if items.len() > 0 {
        if items[0].id >= id {
            assert forall|i: int| 0 <= i < items.len() implies (#[trigger] items[i]).id >= id by {
                if i > 0 {
                    assert(items[0].id < items[i].id);
                }
            }
        } else {
            lemma_table_skip(items);
            let rest = items.skip(1);
            lemma_some_place(rest, id);
            let at = some_place(items, id);
            assert forall|i: int| 0 <= i < at implies (#[trigger] items[i]).id < id by {
                if i > 0 {
                    assert(rest[i - 1] == items[i]);
                }
            }
            assert forall|i: int| at <= i < items.len() implies (#[trigger] items[i]).id >= id by {
                assert(rest[i - 1] == items[i]);
            }
        }
    }
}

/// Putting a notification in keeps the table in order, makes it the one with
/// its id, and leaves all others.
pub proof fn putting_in_changes_one(
    items: Seq<ActiveNotificationModel>,
    item: ActiveNotificationModel,
    id: u32,
)
    requires
        is_table(items),
    ensures
        is_table(with_item(items, item)),
        item_of(with_item(items, item), id) == if id == item.id {
            Some(item)
        } else {
            item_of(items, id)
        },
        with_item(items, item).len() == items.len() + if has_id(items, item.id) {
            0int
        } else {
            1int
        },
{
    let at = some_place(items, item.id);
    lemma_some_place(items, item.id);
    lemma_place(items, item, at);
    let result = with_item(items, item);
    assert forall|i: int, j: int| 0 <= i < j < result.len() implies #[trigger] result[i].id
        < #[trigger] result[j].id by {
        if has_id(items, item.id) {
            assert(items[i].id < items[j].id);
        } else {
            if i != at && j != at {
                let a = if i < at { i } else { i - 1 };
                let b = if j < at { j } else { j - 1 };
                assert(items[a].id < items[b].id);
            }
            if i == at {
                assert(items[j - 1].id >= item.id);
            }
            if j == at {
                assert(items[i].id < item.id);
            }
        }
    }
    assert(result[at] == item);
    if id == item.id {
        assert(has_id(result, id));
        lemma_unique(result, id, at);
    } else {
        if has_id(items, id) {
            let k = place_of(items, id);
            let m = if !has_id(items, item.id) && k >= at { k + 1 } else { k };
            assert(result[m] == items[k]);
            lemma_unique(result, id, m);
        }
        if has_id(result, id) {
            let m = place_of(result, id);
            let k = if !has_id(items, item.id) && m > at { m - 1 } else { m };
            assert(items[k] == result[m]);
            lemma_unique(items, id, k);
        }
    }
}

/// Taking a notification out keeps the table in order and leaves all others.
pub proof fn taking_out_changes_one(items: Seq<ActiveNotificationModel>, gone: u32, id: u32)
    requires
        is_table(items),
    ensures
        is_table(without_id(items, gone)),
        item_of(without_id(items, gone), id) == if id == gone {
            None
        } else {
            item_of(items, id)
        },
        without_id(items, gone).len() == items.len() - if has_id(items, gone) {
            1int
        } else {
            0int
        },
{
    let at = some_place(items, gone);
    let stub = ActiveNotificationModel { id: gone, ..ActiveNotificationModel::initial() };
    lemma_some_place(items, gone);
    lemma_place(items, stub, at);
    let result = without_id(items, gone);
    let had = has_id(items, gone);
    assert forall|i: int, j: int| 0 <= i < j < result.len() implies #[trigger] result[i].id
        < #[trigger] result[j].id by {
        let a = if had && i >= at { i + 1 } else { i };
        let b = if had && j >= at { j + 1 } else { j };
        assert(items[a].id < items[b].id);
    }
    if has_id(result, id) {
        let m = place_of(result, id);
        let k = if had && m >= at { m + 1 } else { m };
        assert(items[k] == result[m]);
        lemma_unique(items, id, k);
        if id == gone {
            assert(had);
            if k < at {
                assert(items[k].id < gone);
            } else {
                assert(items[at].id < items[k].id);
            }
        }
    }
    if id != gone && has_id(items, id) {
        let k = place_of(items, id);
        let m = if had && k > at { k - 1 } else { k };
        assert(result[m] == items[k]);
        lemma_unique(result, id, m);
    }
}

pub(crate) proof fn lemma_unique(items: Seq<ActiveNotificationModel>, id: u32, at: int)
    requires
        is_table(items),
        0 <= at < items.len(),
        items[at].id == id,
    ensures
        has_id(items, id),
        place_of(items, id) == at,
        item_of(items, id) == Some(items[at]),
{
    let k = place_of(items, id);
    if k < at {
        assert(items[k].id < items[at].id);
    }
    if k > at {
        assert(items[at].id < items[k].id);
    }
}

/// Finds where an id stands or would stand.
pub(crate) fn find_place(items: &Vec<ActiveNotification>, id: u32) -> (at: usize)
    requires
        is_table(items.deep_view()),
    ensures
        is_place(items.deep_view(), id, at as int),
{
    let ghost all = items.deep_view();
    let mut at: usize = 0;
    while at < items.len() && items[at].id < id
        invariant
            at <= items@.len(),
            all == items.deep_view(),
            forall|i: int| 0 <= i < at ==> (#[trigger] all[i]).id < id,
        decreases items@.len() - at,
    {
        assert(all[at as int] == items@[at as int].deep_view());
        at = at + 1;
    }
    assert forall|i: int| at <= i < all.len() implies (#[trigger] all[i]).id >= id by {
        assert(all[at as int] == items@[at as int].deep_view());
        if i > at {
            assert(all[at as int].id < all[i].id);
        }
    }
    at
}

/// Tests whether a notification has an id.
pub(crate) fn contains_id(items: &Vec<ActiveNotification>, id: u32) -> (found: bool)
    requires
        is_table(items.deep_view()),
    ensures
        found == has_id(items.deep_view(), id),
{
    let at: usize = find_place(items, id);
    proof {
        lemma_place(
            items.deep_view(),
            ActiveNotificationModel { id, ..ActiveNotificationModel::initial() },
            at as int,
        );
        if at < items@.len() {
            assert(items.deep_view()[at as int] == items@[at as int].deep_view());
        }
    }
    at < items.len() && items[at].id == id
}

/// Puts a notification in.
pub(crate) fn put_item(items: &mut Vec<ActiveNotification>, item: ActiveNotification)
    requires
        is_table(old(items).deep_view()),
    ensures
        final(items).deep_view() == with_item(old(items).deep_view(), item.deep_view()),
        is_table(final(items).deep_view()),
{
    let at: usize = find_place(items, item.id);
    let ghost before = items.deep_view();
    proof {
        lemma_place(before, item.deep_view(), at as int);
        putting_in_changes_one(before, item.deep_view(), 0);
        if at < items@.len() {
            assert(before[at as int] == items@[at as int].deep_view());
        }
    }
    if at < items.len() && items[at].id == item.id {
        items.set(at, item);
        assert(items.deep_view() =~= before.update(at as int, item.deep_view()));
    } else {
        items.insert(at, item);
        assert(items.deep_view() =~= before.insert(at as int, item.deep_view()));
    }
}

/// Takes the notification with an id out. Tells whether there was one.
pub(crate) fn take_item(items: &mut Vec<ActiveNotification>, id: u32) -> (found: bool)
    requires
        is_table(old(items).deep_view()),
    ensures
        final(items).deep_view() == without_id(old(items).deep_view(), id),
        is_table(final(items).deep_view()),
        found == has_id(old(items).deep_view(), id),
{
    let at: usize = find_place(items, id);
    let ghost before = items.deep_view();
    proof {
        lemma_place(
            before,
            ActiveNotificationModel { id, ..ActiveNotificationModel::initial() },
            at as int,
        );
        taking_out_changes_one(before, id, 0);
        if at < items@.len() {
            assert(before[at as int] == items@[at as int].deep_view());
        }
    }
    if at < items.len() && items[at].id == id {
        let _ = items.remove(at);
        assert(items.deep_view() =~= before.remove(at as int));
        true
    } else {
        false
    }
}

} // verus!
