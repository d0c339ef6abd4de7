//! Clients that listen to streams.

use vstd::prelude::*;

use crate::api::error::{ApiError, ApiErrorModel};
use crate::protocol::registry::Stream;
use crate::record::Record;
use crate::text::{
    contains_name, decimal, decimal_text, decimal_text_round_trip, is_empty, joined,
    same_text,
};

verus! {

/// A client that listens, under an id.
#[derive(Debug, PartialEq, Eq)]
pub struct Subscription {
    pub id: String,
    pub owner: Option<String>,
}

/// What a [`Subscription`] holds.
#[verifier::ext_equal]
pub struct SubscriptionModel {
    pub id: Seq<char>,
    pub owner: Option<Seq<char>>,
}

impl DeepView for Subscription {
    type V = SubscriptionModel;

    open spec fn deep_view(&self) -> SubscriptionModel {
        SubscriptionModel {
            id: self.id.deep_view(),
            owner: self.owner.deep_view(),
        }
    }
}

impl Record for Subscription {
    fn same(&self, other: &Self) -> (same: bool) {
        self.id.same(&other.id)
            && self.owner.same(&other.owner)
    }

    fn copy(&self) -> (copy: Self) {
        Subscription {
            id: self.id.copy(),
            owner: self.owner.copy(),
        }
    }
}

impl Clone for Subscription {
    fn clone(&self) -> (copy: Self)
        ensures
            copy.deep_view() == self.deep_view(),
    {
        self.copy()
    }
}

/// Clients that listen, and the number of the next.
pub struct SubscriptionTable {
    entries: Vec<Subscription>,
    sequence: u64,
}

/// What a [`SubscriptionTable`] holds.
#[verifier::ext_equal]
pub struct SubscriptionsModel {
    pub entries: Seq<SubscriptionModel>,
    pub sequence: u64,
}

impl View for SubscriptionTable {
    type V = SubscriptionsModel;

    closed spec fn view(&self) -> SubscriptionsModel {
        SubscriptionsModel { entries: self.entries.deep_view(), sequence: self.sequence }
    }
}

/// The id of a number.
pub open spec fn id_of(number: u64) -> Seq<char> {
    "subscription-"@ + decimal_text(number as nat)
}

/// Whether the name of a stream is known.
pub open spec fn is_stream(name: Seq<char>) -> bool {
    exists|stream: Stream| #[trigger] stream.name_text() == name
}

/// The first of the names that is not that of a stream.
pub open spec fn unknown_stream(names: Seq<Seq<char>>) -> Option<Seq<char>>
    decreases names.len(),
{
    if names.len() == 0 {
        None
    } else if !is_stream(names[0]) {
        Some(names[0])
    } else {
        unknown_stream(names.skip(1))
    }
}

/// Whether an id is in use.
pub open spec fn is_used(entries: Seq<SubscriptionModel>, id: Seq<char>) -> bool {
    exists|i: int| 0 <= i < entries.len() && (#[trigger] entries[i]).id == id
}

/// Whether a client listens under an id.
pub open spec fn is_owned(
    entries: Seq<SubscriptionModel>,
    id: Seq<char>,
    owner: Option<Seq<char>>,
) -> bool {
    exists|i: int|
        0 <= i < entries.len() && (#[trigger] entries[i]).id == id && entries[i].owner == owner
}

/// Clients but for those that listen under an id.
pub open spec fn without(entries: Seq<SubscriptionModel>, id: Seq<char>) -> Seq<SubscriptionModel> {
    entries.filter(|entry: SubscriptionModel| entry.id != id)
}

impl SubscriptionsModel {
    /// Whether ids come from numbers that have been given out, and none is in use twice.
    pub open spec fn wf(self) -> bool {
        &&& forall|i: int|
            0 <= i < self.entries.len() ==> exists|number: u64|
                number < self.sequence && (#[trigger] self.entries[i]).id == #[trigger] id_of(
                    number,
                )
        &&& forall|i: int, j: int|
            0 <= i < j < self.entries.len() ==> #[trigger] self.entries[i].id
                != #[trigger] self.entries[j].id
    }
}

proof fn lemma_ids_differ(a: u64, b: u64)
    requires
        id_of(a) == id_of(b),
    ensures
        a == b,
{
    let prefix = "subscription-"@;
    assert(id_of(a).skip(prefix.len() as int) =~= decimal_text(a as nat));
    assert(id_of(b).skip(prefix.len() as int) =~= decimal_text(b as nat));
    decimal_text_round_trip(a as nat);
    decimal_text_round_trip(b as nat);
}

/// The next id is not in use.
pub proof fn next_id_is_fresh(table: SubscriptionsModel)
    requires
        table.wf(),
    ensures
        !is_used(table.entries, id_of(table.sequence)),
{
    if is_used(table.entries, id_of(table.sequence)) {
        let i = choose|i: int|
            0 <= i < table.entries.len() && (#[trigger] table.entries[i]).id == id_of(
                table.sequence,
            );
        let number = choose|number: u64|
            number < table.sequence && table.entries[i].id == #[trigger] id_of(number);
        lemma_ids_differ(number, table.sequence);
    }
}

proof fn lemma_without_wf(table: SubscriptionsModel, id: Seq<char>)
    requires
        table.wf(),
    ensures
        (SubscriptionsModel { entries: without(table.entries, id), ..table }).wf(),
    decreases table.entries.len(),
{
    reveal(Seq::filter);
    if table.entries.len() > 0 {
        let shorter = SubscriptionsModel { entries: table.entries.drop_last(), ..table };
        let last = table.entries.last();
        assert(shorter.wf()) by {
            assert forall|i: int| 0 <= i < shorter.entries.len() implies exists|number: u64|
                number < shorter.sequence && (#[trigger] shorter.entries[i]).id == #[trigger] id_of(
                    number,
                ) by {
                assert(shorter.entries[i] == table.entries[i]);
            }
            assert forall|i: int, j: int| 0 <= i < j < shorter.entries.len() implies
                #[trigger] shorter.entries[i].id != #[trigger] shorter.entries[j].id by {
                assert(table.entries[i].id != table.entries[j].id);
            }
        }
        lemma_without_wf(shorter, id);
        let kept = without(shorter.entries, id);
        assert(table.entries[table.entries.len() - 1] == last);
        assert forall|i: int| 0 <= i < kept.len() implies (#[trigger] kept[i]).id != last.id by {
            let wanted = |entry: SubscriptionModel| entry.id != id;
            lemma_kept_is_old(shorter.entries, id, i);
            let k = choose|k: int| 0 <= k < shorter.entries.len() && shorter.entries[k] == kept[i];
            assert(table.entries[k].id != table.entries[table.entries.len() - 1].id);
        }
    }
}

proof fn lemma_kept_is_old(entries: Seq<SubscriptionModel>, id: Seq<char>, i: int)
    requires
        0 <= i < without(entries, id).len(),
    ensures
        exists|k: int| 0 <= k < entries.len() && entries[k] == without(entries, id)[i],
        without(entries, id)[i].id != id,
    decreases entries.len(),
{
    reveal(Seq::filter);
    if entries.len() > 0 {
        let shorter = entries.drop_last();
        let kept = without(shorter, id);
        if i < kept.len() {
            lemma_kept_is_old(shorter, id, i);
            let k = choose|k: int| 0 <= k < shorter.len() && shorter[k] == kept[i];
            assert(entries[k] == kept[i]);
        } else {
            assert(entries[entries.len() - 1] == without(entries, id)[i]);
        }
    }
}

/// Tests whether a stream is one of those that a client listens to.
pub fn stream_selected(streams: &Vec<String>, event_stream: &str) -> (selected: bool)
    ensures
        selected == streams.deep_view().contains(event_stream@),
{
    contains_name(streams, event_stream)
}

fn find_unknown(names: &Vec<String>) -> (name: Option<String>)
    ensures
        name.deep_view() == unknown_stream(names.deep_view()),
{
    let ghost all = names.deep_view();
    let mut i: usize = 0;
    assert(all.skip(0) =~= all);
    while i < names.len()
        invariant
            i <= names@.len(),
            all == names.deep_view(),
            unknown_stream(all) == unknown_stream(all.skip(i as int)),
        decreases names@.len() - i,
    {
        assert(all.skip(i as int)[0] == names@[i as int]@);
        if Stream::from_name(names[i].as_str()).is_none() {
            return Some(names[i].clone());
        }
        assert(all.skip(i as int).skip(1) =~= all.skip(i + 1));
        i = i + 1;
    }
    None
}

fn same_owner(a: &Option<String>, b: &Option<String>) -> (same: bool)
    ensures
        same == (a.deep_view() == b.deep_view()),
{
    a.same(b)
}

impl SubscriptionTable {
    /// No client listens.
    pub fn new() -> (table: SubscriptionTable)
        ensures
            table@ == (SubscriptionsModel { entries: Seq::empty(), sequence: 1 }),
            table@.wf(),
    {
        let table = SubscriptionTable { entries: Vec::new(), sequence: 1 };
        assert(table@.entries =~= Seq::<SubscriptionModel>::empty());
        table
    }

    /// Lets a client listen to streams, all of which have to be known. Gives
    /// the id under which it does.
    pub fn subscribe(&mut self, streams: &Vec<String>, owner: Option<String>) -> (id: Result<
        String,
        ApiError,
    >)
        requires
            old(self)@.wf(),
            old(self)@.sequence < u64::MAX,
        ensures
            final(self)@.wf(),
            match id {
                Ok(id) => {
                    &&& unknown_stream(streams.deep_view()) is None
                    &&& id@ == id_of(old(self)@.sequence)
                    &&& !is_used(old(self)@.entries, id@)
                    &&& final(self)@ == (SubscriptionsModel {
                        entries: old(self)@.entries.push(
                            SubscriptionModel { id: id@, owner: owner.deep_view() },
                        ),
                        sequence: (old(self)@.sequence + 1) as u64,
                    })
                },
                Err(error) => {
                    &&& unknown_stream(streams.deep_view()) matches Some(name)
                        && error.deep_view() == ApiErrorModel::of(
                        "unsupported-stream"@,
                        "Unsupported bar-api stream: "@ + name,
                    )
                    &&& final(self)@ == old(self)@
                },
            },
    {
        if let Some(name) = find_unknown(streams) {
            let message = joined("Unsupported bar-api stream: ", name.as_str());
            return Err(ApiError::new("unsupported-stream", message.as_str()));
        }
        let id = joined("subscription-", decimal(self.sequence).as_str());
        proof {
            next_id_is_fresh(old(self)@);
        }
        let entry = Subscription { id: id.clone(), owner };
        self.entries.push(entry);
        self.sequence = self.sequence + 1;
        proof {
            let before = old(self)@;
            let after = self@;
            assert(after.entries =~= before.entries.push(entry.deep_view()));
            assert forall|i: int| 0 <= i < after.entries.len() implies exists|number: u64|
                number < after.sequence && (#[trigger] after.entries[i]).id == #[trigger] id_of(
                    number,
                ) by {
                if i < before.entries.len() {
                    assert(after.entries[i] == before.entries[i]);
                    let number = choose|number: u64|
                        number < before.sequence && before.entries[i].id == #[trigger] id_of(
                            number,
                        );
                    assert(number < after.sequence && after.entries[i].id == id_of(number));
                } else {
                    assert(after.entries[i].id == id_of(before.sequence));
                }
            }
            assert forall|i: int, j: int| 0 <= i < j < after.entries.len() implies
                #[trigger] after.entries[i].id != #[trigger] after.entries[j].id by {
                assert(after.entries[i] == before.entries[i]);
                if j < before.entries.len() {
                    assert(before.entries[i].id != before.entries[j].id);
                } else {
                    assert(before.entries[i].id != id_of(before.sequence));
                }
            }
        }
        Ok(id)
    }

    fn keep_others(&mut self, id: &str)
        ensures
            final(self)@ == (SubscriptionsModel {
                entries: without(old(self)@.entries, id@),
                ..old(self)@
            }),
    {
        let ghost all = self.entries.deep_view();
        let ghost wanted = |entry: SubscriptionModel| entry.id != id@;
        let mut kept: Vec<Subscription> = Vec::new();
        let mut i: usize = 0;
        proof {
            reveal(Seq::filter);
            assert(kept.deep_view() =~= all.take(0).filter(wanted));
        }
        while i < self.entries.len()
            invariant
                i <= self.entries@.len(),
                *self == *old(self),
                all == self.entries.deep_view(),
                wanted == (|entry: SubscriptionModel| entry.id != id@),
                kept.deep_view() == all.take(i as int).filter(wanted),
            decreases self.entries@.len() - i,
        {
            reveal(Seq::filter);
            assert(all.take(i + 1).drop_last() =~= all.take(i as int));
            assert(all.take(i + 1).last() == self.entries@[i as int].deep_view());
            let ghost before = kept.deep_view();
            if !same_text(self.entries[i].id.as_str(), id) {
                kept.push(self.entries[i].copy());
                assert(kept.deep_view() =~= before.push(all[i as int]));
            }
            i = i + 1;
        }
        assert(all.take(i as int) =~= all);
        self.entries = kept;
    }

    fn owns(&self, id: &str, owner: &Option<String>) -> (owned: bool)
        ensures
            owned == is_owned(self@.entries, id@, owner.deep_view()),
    {
        let mut i: usize = 0;
        while i < self.entries.len()
            invariant
                i <= self.entries@.len(),
                forall|k: int|
                    0 <= k < i ==> !((#[trigger] self@.entries[k]).id == id@ && self@.entries[k].owner
                        == owner.deep_view()),
            decreases self.entries@.len() - i,
        {
            assert(self@.entries[i as int] == self.entries@[i as int].deep_view());
            if same_text(self.entries[i].id.as_str(), id) && same_owner(
                &self.entries[i].owner,
                owner,
            ) {
                return true;
            }
            i = i + 1;
        }
        false
    }

    /// Forgets a client that has ended.
    pub fn remove(&mut self, id: &str)
        requires
            old(self)@.wf(),
        ensures
            final(self)@.wf(),
            final(self)@ == (SubscriptionsModel {
                entries: without(old(self)@.entries, id@),
                ..old(self)@
            }),
    {
        self.keep_others(id);
        proof {
            lemma_without_wf(old(self)@, id@);
        }
    }

    /// Lets a client no longer listen, if it is the one that does.
    pub fn cancel(&mut self, id: &str, owner: &Option<String>) -> (result: Result<(), ApiError>)
        requires
            old(self)@.wf(),
        ensures
            final(self)@.wf(),
            match result {
                Ok(()) => is_owned(old(self)@.entries, id@, owner.deep_view()) && final(self)@ == (
                SubscriptionsModel { entries: without(old(self)@.entries, id@), ..old(self)@ }),
                Err(error) => !is_owned(old(self)@.entries, id@, owner.deep_view())
                    && final(self)@ == old(self)@ && error.deep_view() == ApiErrorModel::of(
                    "request-not-found"@,
                    "No active request named "@ + id@,
                ),
            },
    {
        if self.owns(id, owner) {
            self.remove(id);
            return Ok(());
        }
        let message = joined("No active request named ", id);
        Err(ApiError::new("request-not-found", message.as_str()))
    }
}

/// What happens to a client that listens.
#[derive(Debug, PartialEq, Eq)]
pub enum StreamNews {
    /// It begins to listen.
    Started,
    /// A stream has something new.
    Changed(String),
    /// It missed some of what was new.
    Lagged,
}

/// What is sent to a client: on which stream, and what of.
#[derive(Debug, PartialEq, Eq)]
pub struct Delivery {
    pub stream: String,
    pub event: &'static str,
}

/// What a [`Delivery`] holds.
#[verifier::ext_equal]
pub struct DeliveryModel {
    pub stream: Seq<char>,
    pub event: Seq<char>,
}

impl DeepView for Delivery {
    type V = DeliveryModel;

    open spec fn deep_view(&self) -> DeliveryModel {
        DeliveryModel { stream: self.stream@, event: self.event@ }
    }
}

/// The same event on each of the streams.
pub open spec fn on_each(streams: Seq<Seq<char>>, event: Seq<char>) -> Seq<DeliveryModel> {
    streams.map_values(|stream: Seq<char>| DeliveryModel { stream, event })
}

/// What is sent to a client that listens to streams.
pub open spec fn sent(streams: Seq<Seq<char>>, news: StreamNews) -> Seq<DeliveryModel> {
    match news {
        StreamNews::Started => on_each(streams, "subscribed"@),
        StreamNews::Changed(stream) => if streams.contains(stream@) {
            seq![DeliveryModel { stream: stream@, event: "changed"@ }]
        } else {
            Seq::empty()
        },
        StreamNews::Lagged => on_each(streams, "lagged"@),
    }
}

fn deliver_on_each(streams: &Vec<String>, event: &'static str) -> (deliveries: Vec<Delivery>)
    ensures
        deliveries.deep_view() == on_each(streams.deep_view(), event@),
{
    let mut deliveries: Vec<Delivery> = Vec::new();
    let ghost all = streams.deep_view();
    let mut i: usize = 0;
    while i < streams.len()
        invariant
            i <= streams@.len(),
            all == streams.deep_view(),
            deliveries.deep_view() =~= on_each(all.take(i as int), event@),
        decreases streams@.len() - i,
    {
        let ghost before = deliveries.deep_view();
        deliveries.push(Delivery { stream: streams[i].clone(), event });
        assert(deliveries.deep_view() =~= before.push(
            DeliveryModel { stream: all[i as int], event: event@ },
        ));
        i = i + 1;
    }
    assert(all.take(i as int) =~= all);
    deliveries
}

/// Works out what is sent to a client that listens to streams.
pub fn deliveries(streams: &Vec<String>, news: StreamNews) -> (deliveries: Vec<Delivery>)
    ensures
        deliveries.deep_view() == sent(streams.deep_view(), news),
{
    match news {
        StreamNews::Started => deliver_on_each(streams, "subscribed"),
        StreamNews::Lagged => deliver_on_each(streams, "lagged"),
        StreamNews::Changed(stream) => {
            let mut deliveries: Vec<Delivery> = Vec::new();
            if stream_selected(streams, stream.as_str()) {
                let ghost name = stream@;
                deliveries.push(Delivery { stream, event: "changed" });
                assert(deliveries.deep_view() =~= seq![
                    DeliveryModel { stream: name, event: "changed"@ },
                ]);
            }
            deliveries
        },
    }
}

/// Whether a change of the owner of a name on the message bus means that a
/// client is gone.
pub fn owner_lost(owner: &str, name: &str, old_owner: &str, new_owner: &str) -> (lost: bool)
    ensures
        lost == (name@ == owner@ && old_owner@.len() > 0 && new_owner@.len() == 0),
{
    same_text(name, owner) && !is_empty(old_owner) && is_empty(new_owner)
}

/// A client is sent nothing of a stream that it does not listen to.
pub proof fn clients_hear_their_streams_only(streams: Seq<Seq<char>>, news: StreamNews, i: int)
    requires
        0 <= i < sent(streams, news).len(),
    ensures
        streams.contains(sent(streams, news)[i].stream),
{
    match news {
        StreamNews::Changed(stream) => {},
        _ => {
            assert(streams[i] == sent(streams, news)[i].stream);
        },
    }
}

/// Nobody but the client that listens under an id can end that.
pub proof fn only_owner_cancels(
    table: SubscriptionsModel,
    i: int,
    owner: Option<Seq<char>>,
)
    requires
        table.wf(),
        0 <= i < table.entries.len(),
        table.entries[i].owner != owner,
    ensures
        !is_owned(table.entries, table.entries[i].id, owner),
{
    let id = table.entries[i].id;
    if is_owned(table.entries, id, owner) {
        let k = choose|k: int|
            0 <= k < table.entries.len() && (#[trigger] table.entries[k]).id == id
                && table.entries[k].owner == owner;
        if k < i {
            assert(table.entries[k].id != table.entries[i].id);
        } else if i < k {
            assert(table.entries[i].id != table.entries[k].id);
        }
    }
}

// Laws

/// A client that begins to listen hears of each of its streams, once, in order; so
/// does one that missed something. Of a change it hears if and only if the stream
/// is among its own.
pub proof fn clients_hear_of_all_their_streams(
    streams: Seq<Seq<char>>,
    changed: StreamNews,
    i: int,
)
    ensures
        sent(streams, StreamNews::Started).len() == streams.len(),
        sent(streams, StreamNews::Lagged).len() == streams.len(),
        0 <= i < streams.len() ==> sent(streams, StreamNews::Started)[i] == (DeliveryModel {
            stream: streams[i],
            event: "subscribed"@,
        }),
        0 <= i < streams.len() ==> sent(streams, StreamNews::Lagged)[i] == (DeliveryModel {
            stream: streams[i],
            event: "lagged"@,
        }),
        changed matches StreamNews::Changed(stream) ==> {
            &&& streams.contains(stream@) ==> sent(streams, changed) == seq![
                DeliveryModel { stream: stream@, event: "changed"@ },
            ]
            &&& !streams.contains(stream@) ==> sent(streams, changed).len() == 0
        },
{
}

/// Ending a subscription takes out those with its id and leaves all others.
pub proof fn ending_leaves_other_subscriptions(
    entries: Seq<SubscriptionModel>,
    id: Seq<char>,
    entry: SubscriptionModel,
)
    ensures
        without(entries, id).contains(entry) <==> entries.contains(entry) && entry.id != id,
        !is_used(without(entries, id), id),
{
    let wanted = |entry: SubscriptionModel| entry.id != id;
    let kept = entries.filter(wanted);
    if kept.contains(entry) {
        let k = choose|k: int| 0 <= k < kept.len() && kept[k] == entry;
        entries.lemma_filter_pred(wanted, k);
        entries.lemma_filter_contains_rev(wanted, entry);
    }
    if entries.contains(entry) && entry.id != id {
        let k = choose|k: int| 0 <= k < entries.len() && entries[k] == entry;
        entries.lemma_filter_contains(wanted, k);
    }
    if is_used(kept, id) {
        let k = choose|i: int| 0 <= i < kept.len() && (#[trigger] kept[i]).id == id;
        entries.lemma_filter_pred(wanted, k);
    }
}

/// A stream that is not known is told of: the first among those asked for. There
/// is none if and only if all are known.
pub proof fn first_unknown_stream_is_told(names: Seq<Seq<char>>, at: int)
    requires
        0 <= at <= names.len(),
        forall|i: int| 0 <= i < at ==> is_stream(#[trigger] names[i]),
        at < names.len() ==> !is_stream(names[at]),
    ensures
        at < names.len() ==> unknown_stream(names) == Some(names[at]),
        at == names.len() ==> unknown_stream(names) is None,
    decreases names.len(),
{
    if at > 0 {
        assert(is_stream(names[0]));
        let rest = names.skip(1);
        assert forall|i: int| 0 <= i < at - 1 implies is_stream(#[trigger] rest[i]) by {
            assert(rest[i] == names[i + 1]);
        }
        if at < names.len() {
            assert(rest[at - 1] == names[at]);
        }
        first_unknown_stream_is_told(rest, at - 1);
    }
}

/// Streams are known by their names, and by nothing else.
pub proof fn streams_are_known(stream: Stream, name: Seq<char>)
    ensures
        is_stream(stream.name_text()),
        (forall|other: Stream| #[trigger] other.name_text() != name) ==> !is_stream(name),
        is_stream(name) ==> exists|other: Stream| #[trigger] other.name_text() == name,
{
}

} // verus!
