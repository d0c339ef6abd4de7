//! Adapters that read calendar sources of different kinds.

use vstd::prelude::*;

use crate::activity::config::{CalendarSourceConfig, CalendarSourceConfigModel};
use crate::activity::ics::{
    document_moments, load_source, moments_of, source_events, zone_fits, zone_shows,
    CalendarError,
    CalendarErrorModel, Document, DocumentModel, LocalTime,
};
use crate::activity::model::{ActivityEvent, ActivityEventModel};
use crate::text::same_text;

verus! {

/// Boundary of calendar source adapters.
///
/// An adapter turns the files of a source into events. Retries, the last good
/// state, and merged queries belong to the activity service.
pub trait CalendarProvider {
    /// The kinds of source that the adapter reads.
    spec fn kind_names(&self) -> Seq<Seq<char>>;

    /// The kinds of source that the adapter reads.
    fn kinds(&self) -> (kinds: Vec<String>)
        ensures
            kinds.deep_view() == self.kind_names(),
    ;

    /// Whether the adapter may give these events, or this error, for a source with these files.
    spec fn gives(
        &self,
        source: CalendarSourceConfigModel,
        documents: Seq<DocumentModel>,
        events: Result<Vec<ActivityEvent>, CalendarError>,
    ) -> bool;

    /// The events of a source, out of its files.
    fn load(&self, source: &CalendarSourceConfig, documents: &Vec<Document>) -> (events: Result<
        Vec<ActivityEvent>,
        CalendarError,
    >)
        ensures
            self.gives(source.deep_view(), documents.deep_view(), events),
    ;
}

/// Reads iCalendar files and directories of them.
pub struct IcsProvider;

impl CalendarProvider for IcsProvider {
    open spec fn kind_names(&self) -> Seq<Seq<char>> {
        seq!["ics-file"@, "ics-directory"@]
    }

    fn kinds(&self) -> (kinds: Vec<String>) {
        let mut kinds: Vec<String> = Vec::new();
        kinds.push("ics-file".to_string());
        kinds.push("ics-directory".to_string());
        assert(kinds.deep_view() =~= self.kind_names());
        kinds
    }

    open spec fn gives(
        &self,
        source: CalendarSourceConfigModel,
        documents: Seq<DocumentModel>,
        events: Result<Vec<ActivityEvent>, CalendarError>,
    ) -> bool {
        exists|zone: Seq<LocalTime>|
            {
                &&& zone_fits(zone)
                &&& zone_shows(zone)
                &&& moments_of(zone) == document_moments(documents)
                &&& match events {
                    Ok(events) => #[trigger] source_events(source, documents, zone) == Ok::<
                        _,
                        CalendarErrorModel,
                    >(events.deep_view()),
                    Err(error) => source_events(source, documents, zone) == Err::<
                        Seq<ActivityEventModel>,
                        _,
                    >(error.deep_view()),
                }
            }
    }

    fn load(&self, source: &CalendarSourceConfig, documents: &Vec<Document>) -> (events: Result<
        Vec<ActivityEvent>,
        CalendarError,
    >) {
        load_source(source, documents)
    }
}

/// The place of an adapter, under one of the kinds that it reads.
struct Registration {
    kind: String,
    provider: usize,
}

/// The place of the adapter that is registered for a kind.
spec fn registered(registrations: Seq<Registration>, kind: Seq<char>) -> Option<usize>
    decreases registrations.len(),
{
    if registrations.len() == 0 {
        None
    } else if registrations[0].kind@ == kind {
        Some(registrations[0].provider)
    } else {
        registered(registrations.skip(1), kind)
    }
}

/// Calendar adapters by the kinds that they read.
pub struct ProviderRegistry<P> {
    providers: Vec<P>,
    registrations: Vec<Registration>,
}

proof fn lemma_registered(registrations: Seq<Registration>, kind: Seq<char>, at: int)
    requires
        0 <= at <= registrations.len(),
        forall|i: int| 0 <= i < at ==> (#[trigger] registrations[i]).kind@ != kind,
    ensures
        at < registrations.len() && registrations[at].kind@ == kind ==> registered(
            registrations,
            kind,
        ) == Some(registrations[at].provider),
        at == registrations.len() ==> registered(registrations, kind) is None,
    decreases registrations.len(),
{
    if registrations.len() > 0 && at > 0 {
        let rest = registrations.skip(1);
        assert forall|i: int| 0 <= i < at - 1 implies (#[trigger] rest[i]).kind@ != kind by {
            assert(rest[i] == registrations[i + 1]);
        }
        lemma_registered(rest, kind, at - 1);
    }
}

proof fn lemma_registered_elsewhere(
    before: Seq<Registration>,
    after: Seq<Registration>,
    kind: Seq<char>,
    at: int,
)
    requires
        0 <= at <= before.len(),
        at < after.len(),
        after[at].kind@ != kind,
        at < before.len() ==> before[at].kind@ != kind && after.len() == before.len(),
        at == before.len() ==> after.len() == before.len() + 1,
        forall|i: int| 0 <= i < before.len() && i != at ==> #[trigger] after[i] == before[i],
    ensures
        registered(after, kind) == registered(before, kind),
    decreases before.len(),
{
    if at == 0 {
        if before.len() > 0 {
            assert(after.skip(1) =~= before.skip(1));
        } else {
            assert(after.skip(1).len() == 0);
            assert(registered(after.skip(1), kind) is None);
        }
    } else {
        assert(after[0] == before[0]);
        assert forall|i: int| 0 <= i < before.len() - 1 && i != at - 1 implies
            #[trigger] after.skip(1)[i] == before.skip(1)[i] by {
            assert(after[i + 1] == before[i + 1]);
        }
        lemma_registered_elsewhere(before.skip(1), after.skip(1), kind, at - 1);
    }
}

impl<P: CalendarProvider> ProviderRegistry<P> {
    /// Whether every registration leads to an adapter.
    pub closed spec fn wf(&self) -> bool {
        forall|i: int|
            0 <= i < self.registrations@.len() ==> (#[trigger] self.registrations@[i]).provider
                < self.providers@.len()
    }

    /// The adapter that reads sources of a kind.
    pub closed spec fn provider_for(&self, kind: Seq<char>) -> Option<P> {
        match registered(self.registrations@, kind) {
            Some(at) => Some(self.providers@[at as int]),
            None => None,
        }
    }

    /// A registry without adapters.
    pub fn new() -> (registry: ProviderRegistry<P>)
        ensures
            registry.wf(),
            forall|kind: Seq<char>| (#[trigger] registry.provider_for(kind)) is None,
    {
        ProviderRegistry { providers: Vec::new(), registrations: Vec::new() }
    }

    /// Adds an adapter for all kinds that it reads, in place of those that read them before.
    pub fn register(&mut self, provider: P)
        requires
            old(self).wf(),
        ensures
            final(self).wf(),
            forall|kind: Seq<char>| #[trigger]
                final(self).provider_for(kind) == if provider.kind_names().contains(kind) {
                    Some(provider)
                } else {
                    old(self).provider_for(kind)
                },
    {
        let kinds = provider.kinds();
        let ghost names = provider.kind_names();
        let ghost given = provider;
        let place: usize = self.providers.len();
        self.providers.push(provider);
        let mut i: usize = 0;
        while i < kinds.len()
            invariant
                i <= kinds@.len(),
                names == kinds.deep_view(),
                self.wf(),
                self.providers@ == old(self).providers@.push(given),
                place == old(self).providers@.len(),
                forall|kind: Seq<char>| #[trigger]
                    registered(self.registrations@, kind) == if names.take(i as int).contains(
                        kind,
                    ) {
                        Some(place)
                    } else {
                        registered(old(self).registrations@, kind)
                    },
            decreases kinds@.len() - i,
        {
            let ghost before = self.registrations@;
            let name = &kinds[i];
            assert(names[i as int] == name@);
            let at: usize = self.position(name.as_str());
            let registration = Registration { kind: name.clone(), provider: place };
            if at < self.registrations.len() {
                self.registrations.set(at, registration);
            } else {
                self.registrations.push(registration);
            }
            proof {
                assert forall|kind: Seq<char>| #[trigger] registered(self.registrations@, kind)
                    == if names.take(i + 1).contains(kind) {
                    Some(place)
                } else {
                    registered(old(self).registrations@, kind)
                } by {
                    let shorter = names.take(i as int);
                    let longer = names.take(i + 1);
                    assert(longer =~= shorter.push(name@));
                    if kind == name@ {
                        assert(longer[i as int] == kind);
                        lemma_registered(self.registrations@, kind, at as int);
                    } else {
                        lemma_registered_elsewhere(before, self.registrations@, kind, at as int);
                        assert(longer.contains(kind) == shorter.contains(kind)) by {
                            if shorter.contains(kind) {
                                let k = choose|k: int|
                                    0 <= k < shorter.len() && shorter[k] == kind;
                                assert(longer[k] == kind);
                            }
                            if longer.contains(kind) {
                                let k = choose|k: int| 0 <= k < longer.len() && longer[k] == kind;
                                assert(shorter[k] == kind);
                            }
                        }
                    }
                }
            }
            i = i + 1;
        }
        proof {
            assert(names.take(i as int) =~= names);
            assert forall|kind: Seq<char>| #[trigger] self.provider_for(kind) == if names.contains(
                kind,
            ) {
                Some(given)
            } else {
                old(self).provider_for(kind)
            } by {
                lemma_registered_place(old(self).registrations@, kind);
                assert(registered(self.registrations@, kind) == if names.contains(kind) {
                    Some(place)
                } else {
                    registered(old(self).registrations@, kind)
                });
            }
        }
    }

    fn position(&self, kind: &str) -> (at: usize)
        ensures
            at <= self.registrations@.len(),
            forall|i: int| 0 <= i < at ==> (#[trigger] self.registrations@[i]).kind@ != kind@,
            at < self.registrations@.len() ==> self.registrations@[at as int].kind@ == kind@,
    {
        let mut at: usize = 0;
        while at < self.registrations.len()
            invariant
                at <= self.registrations@.len(),
                forall|i: int| 0 <= i < at ==> (#[trigger] self.registrations@[i]).kind@ != kind@,
            decreases self.registrations@.len() - at,
        {
            if same_text(self.registrations[at].kind.as_str(), kind) {
                return at;
            }
            at = at + 1;
        }
        at
    }

    /// Reads a source with the adapter for its kind.
    pub fn load(&self, source: &CalendarSourceConfig, documents: &Vec<Document>) -> (events: Result<
        Vec<ActivityEvent>,
        CalendarError,
    >)
        requires
            self.wf(),
        ensures
            match self.provider_for(source.kind@) {
                Some(provider) => provider.gives(
                    source.deep_view(),
                    documents.deep_view(),
                    events,
                ),
                None => events matches Err(error) && error.deep_view()
                    == CalendarErrorModel::UnsupportedKind(source.kind@),
            },
    {
        let at: usize = self.position(source.kind.as_str());
        proof {
            lemma_registered(self.registrations@, source.kind@, at as int);
        }
        if at < self.registrations.len() {
            self.providers[self.registrations[at].provider].load(source, documents)
        } else {
            Err(CalendarError::UnsupportedKind(source.kind.clone()))
        }
    }
}

impl ProviderRegistry<IcsProvider> {
    /// A registry of the adapters that come with the library.
    pub fn builtins() -> (registry: ProviderRegistry<IcsProvider>)
        ensures
            registry.wf(),
            forall|kind: Seq<char>| #[trigger]
                registry.provider_for(kind) == if kind == "ics-file"@ || kind == "ics-directory"@ {
                    Some(IcsProvider)
                } else {
                    None
                },
    {
        let mut registry = ProviderRegistry::new();
        registry.register(IcsProvider);
        proof {
            let names = IcsProvider.kind_names();
            assert(names[0] == "ics-file"@ && names[1] == "ics-directory"@);
            assert forall|kind: Seq<char>| names.contains(kind) <==> kind == "ics-file"@ || kind
                == "ics-directory"@ by {
                if names.contains(kind) {
                    let k = choose|k: int| 0 <= k < names.len() && names[k] == kind;
                }
            }
        }
        registry
    }
}

proof fn lemma_registered_place(registrations: Seq<Registration>, kind: Seq<char>)
    ensures
        registered(registrations, kind) matches Some(place) ==> exists|i: int|
            0 <= i < registrations.len() && (#[trigger] registrations[i]).provider == place,
    decreases registrations.len(),
{
    if registrations.len() > 0 && registrations[0].kind@ != kind {
        lemma_registered_place(registrations.skip(1), kind);
        if registered(registrations, kind) is Some {
            let place = registered(registrations, kind)->0;
            let i = choose|i: int|
                0 <= i < registrations.skip(1).len() && (#[trigger] registrations.skip(1)[i]).provider
                    == place;
            assert(registrations[i + 1].provider == place);
        }
    }
}

} // verus!
