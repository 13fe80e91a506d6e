//! The fetch coordinator: the registry of labels whose remote refresh is
//! under way. It admits one refresh per label at a time.
use vstd::prelude::*;
use crate::database::Millis;
use crate::gmail_api::messages::{after_refresh, fetch_messages_for_label};
use crate::state::{AppState, AppStateView};
use crate::text::str_eq;
use crate::types::Message;

verus! {

/// Registry of the labels that are being refreshed.
pub struct FetchCoordinator {
    in_flight: Vec<String>,
}

impl View for FetchCoordinator {
    type V = Set<Seq<char>>;

    closed spec fn view(&self) -> Set<Seq<char>> {
        self.in_flight.deep_view().to_set()
    }
}

/// Index of the label in the registry, or the number of its entries.
fn position_of(entries: &Vec<String>, label_id: &str) -> (i: usize)
    ensures
        i <= entries.len(),
        forall|k: int| 0 <= k < i ==> #[trigger] entries.deep_view()[k] != label_id@,
        i < entries.len() ==> entries.deep_view()[i as int] == label_id@,
{
    let mut i: usize = 0;
    while i < entries.len() && !str_eq(entries[i].as_str(), label_id)
        invariant
            i <= entries.len(),
            forall|k: int| 0 <= k < i ==> #[trigger] entries.deep_view()[k] != label_id@,
        decreases entries.len() - i,
    {
        i += 1;
    }
    i
}

impl FetchCoordinator {
    #[verifier::type_invariant]
    spec fn valid(self) -> bool {
        self.in_flight.deep_view().no_duplicates()
    }

    /// Creates a registry with no refresh under way.
    pub fn new() -> (c: FetchCoordinator)
        ensures
            c@ == Set::<Seq<char>>::empty(),
    {
        let c = FetchCoordinator { in_flight: Vec::new() };
        assert(c@ =~= Set::<Seq<char>>::empty());
        c
    }

    /// Whether a refresh of the label is under way.
    pub fn is_in_flight(&self, label_id: &str) -> (r: bool)
        ensures
            r == self@.contains(label_id@),
    {
        let i = position_of(&self.in_flight, label_id);
        proof {
            let entries = self.in_flight.deep_view();
            if i < entries.len() {
                assert(entries.contains(label_id@));
            }
        }
        i < self.in_flight.len()
    }

    /// Registers a refresh of the label unless one is under way, and says
    /// whether the caller won: whether it is the one to run the refresh.
    pub fn try_begin(&mut self, label_id: &str) -> (won: bool)
        ensures
            won == !old(self)@.contains(label_id@),
            final(self)@ == old(self)@.insert(label_id@),
    {
        proof {
            use_type_invariant(&*self);
        }
        let ghost before = self.in_flight.deep_view();
        let i = position_of(&self.in_flight, label_id);
        if i < self.in_flight.len() {
            assert(before.contains(label_id@));
            assert(self@ =~= self@.insert(label_id@));
            false
        } else {
            let mut entries: Vec<String> = Vec::new();
            core::mem::swap(&mut self.in_flight, &mut entries);
            entries.push(label_id.to_string());
            let ghost after = entries.deep_view();
            assert(after =~= before.push(label_id@));
            assert(after.no_duplicates());
            assert(after.to_set() =~= before.to_set().insert(label_id@)) by {
                assert forall|x: Seq<char>| after.to_set().contains(x) <==> before.to_set().insert(
                    label_id@,
                ).contains(x) by {
                    if after.contains(x) {
                        let k = choose|k: int| 0 <= k < after.len() && after[k] == x;
                        if k < before.len() {
                            assert(before[k] == x);
                        }
                    }
                    if before.contains(x) {
                        let k = choose|k: int| 0 <= k < before.len() && before[k] == x;
                        assert(after[k] == x);
                    }
                    if x == label_id@ {
                        assert(after[before.len() as int] == x);
                    }
                }
            }
            self.in_flight = entries;
            true
        }
    }

    /// Releases the label: a later refresh of it is admitted again.
    pub fn end(&mut self, label_id: &str)
        ensures
            final(self)@ == old(self)@.remove(label_id@),
    {
        proof {
            use_type_invariant(&*self);
        }
        let ghost before = self.in_flight.deep_view();
        let i = position_of(&self.in_flight, label_id);
        if i < self.in_flight.len() {
            let mut entries: Vec<String> = Vec::new();
            core::mem::swap(&mut self.in_flight, &mut entries);
            entries.remove(i);
            let ghost after = entries.deep_view();
            assert(after =~= before.remove(i as int));
            assert(after.no_duplicates());
            assert(after.to_set() =~= before.to_set().remove(label_id@)) by {
                assert forall|x: Seq<char>| after.to_set().contains(x) <==> before.to_set().remove(
                    label_id@,
                ).contains(x) by {
                    if after.contains(x) {
                        let k = choose|k: int| 0 <= k < after.len() && after[k] == x;
                        if k < i {
                            assert(before[k] == x);
                        } else {
                            assert(before[k + 1] == x);
                        }
                    }
                    if before.contains(x) && x != label_id@ {
                        let k = choose|k: int| 0 <= k < before.len() && before[k] == x;
                        if k < i {
                            assert(after[k] == x);
                        } else {
                            assert(after[k - 1] == x);
                        }
                    }
                }
            }
            self.in_flight = entries;
        } else {
            assert(!before.contains(label_id@));
            assert(self@ =~= self@.remove(label_id@));
        }
    }
}

/// What can happen to the registry: a refresh of a label is requested, or a
/// running refresh of a label completes.
pub enum FetchEvent {
    Requested(Seq<char>),
    Completed(Seq<char>),
}

/// The registry and, for each label, the number of remote fetches that are
/// running for it.
pub struct FetchTrace {
    pub in_flight: Set<Seq<char>>,
    pub running: Map<Seq<char>, nat>,
}

/// The number of fetches that run for a label.
pub open spec fn running_for(trace: FetchTrace, label: Seq<char>) -> nat {
    if trace.running.dom().contains(label) {
        trace.running[label]
    } else {
        0
    }
}

/// One step: a request starts a fetch exactly when `try_begin` lets it win;
/// a completion of a running fetch calls `end`.
pub open spec fn step(trace: FetchTrace, event: FetchEvent) -> FetchTrace {
    match event {
        FetchEvent::Requested(label) => if trace.in_flight.contains(label) {
            trace
        } else {
            FetchTrace {
                in_flight: trace.in_flight.insert(label),
                running: trace.running.insert(label, running_for(trace, label) + 1),
            }
        },
        FetchEvent::Completed(label) => if running_for(trace, label) > 0 {
            FetchTrace {
                in_flight: trace.in_flight.remove(label),
                running: trace.running.insert(label, (running_for(trace, label) - 1) as nat),
            }
        } else {
            trace
        },
    }
}

/// The state after a sequence of events, from an empty registry.
pub open spec fn run(events: Seq<FetchEvent>) -> FetchTrace
    decreases events.len(),
{
    if events.len() == 0 {
        FetchTrace { in_flight: Set::empty(), running: Map::empty() }
    } else {
        step(run(events.drop_last()), events.last())
    }
}

/// Dedup: whatever requests and completions arrive in whatever order, at
/// most one fetch runs for a label at any time, and one runs exactly while
/// the label is registered.
pub proof fn lemma_at_most_one_fetch_per_label(events: Seq<FetchEvent>, label: Seq<char>)
    ensures
        running_for(run(events), label) <= 1,
        running_for(run(events), label) == 1 <==> run(events).in_flight.contains(label),
    decreases events.len(),
{
    if events.len() > 0 {
        lemma_at_most_one_fetch_per_label(events.drop_last(), label);
        match events.last() {
            FetchEvent::Requested(l) => {
                lemma_at_most_one_fetch_per_label(events.drop_last(), l);
            },
            FetchEvent::Completed(l) => {
                lemma_at_most_one_fetch_per_label(events.drop_last(), l);
            },
        }
    }
}

/// A second request for a label, with no completion in between, starts no
/// fetch.
pub proof fn lemma_repeated_request_is_no_op(trace: FetchTrace, label: Seq<char>)
    ensures
        step(step(trace, FetchEvent::Requested(label)), FetchEvent::Requested(label)) == step(
            trace,
            FetchEvent::Requested(label),
        ),
{
}

/// The state after the cache-first load of the selected label: the first
/// page of its stored messages is on display. Without a selected label that
/// has an id nothing changes.
pub open spec fn after_cache_load(state: AppStateView) -> AppStateView {
    match state.label_id_at(state.selected_label) {
        Some(label) => state.load_messages_from_cache(label),
        None => state,
    }
}

/// The label that the cache-first load asks the caller to refresh at `now`:
/// the selected label, where its cache is stale and no refresh of it is
/// under way.
pub open spec fn refresh_wanted(
    state: AppStateView,
    in_flight: Set<Seq<char>>,
    now: Millis,
) -> Option<Seq<char>> {
    match state.label_id_at(state.selected_label) {
        Some(label) => if after_cache_load(state).is_cache_stale(label, now) && !in_flight.contains(
            label,
        ) {
            Some(label)
        } else {
            None
        },
        None => None,
    }
}

/// The registry after the cache-first load: a stale label is registered,
/// whether or not the caller is the one to refresh it.
pub open spec fn registry_after_load(
    state: AppStateView,
    in_flight: Set<Seq<char>>,
    now: Millis,
) -> Set<Seq<char>> {
    match state.label_id_at(state.selected_label) {
        Some(label) => if after_cache_load(state).is_cache_stale(label, now) {
            in_flight.insert(label)
        } else {
            in_flight
        },
        None => in_flight,
    }
}

/// The id of the selected label.
fn current_label_id(state: &AppState) -> (id: Option<String>)
    ensures
        id.deep_view() == state@.label_id_at(state.selected_label),
{
    match state.get_current_label() {
        Some(label) => label.id.clone(),
        None => None,
    }
}

/// Shows the selected label from the cache at once, and decides whether the
/// caller is to refresh it from the remote service: it is, where the cache
/// is stale and no refresh of the label is under way. The label to refresh
/// is returned; the caller hands what it retrieved to `finish_fetch`.
pub fn begin_cache_first_fetch(
    state: &mut AppState,
    coordinator: &mut FetchCoordinator,
    now: Millis,
) -> (label: Option<String>)
    ensures
        final(state)@ == after_cache_load(old(state)@),
        label.deep_view() == refresh_wanted(old(state)@, old(coordinator)@, now),
        final(coordinator)@ == registry_after_load(old(state)@, old(coordinator)@, now),
{
    match current_label_id(state) {
        Some(label) => {
            state.load_messages_from_cache(label.as_str());
            if state.is_cache_stale(label.as_str(), now) {
                if coordinator.try_begin(label.as_str()) {
                    Some(label)
                } else {
                    None
                }
            } else {
                None
            }
        },
        None => None,
    }
}

/// Decides whether the caller is to refresh the selected label after a
/// notification: it is, unless a refresh of the label is under way.
pub fn begin_background_fetch(state: &AppState, coordinator: &mut FetchCoordinator) -> (label: Option<
    String,
>)
    ensures
        label.deep_view() == match state@.label_id_at(state.selected_label) {
            Some(l) => if old(coordinator)@.contains(l) {
                None
            } else {
                Some(l)
            },
            None => None,
        },
        final(coordinator)@ == match state@.label_id_at(state.selected_label) {
            Some(l) => old(coordinator)@.insert(l),
            None => old(coordinator)@,
        },
{
    match current_label_id(state) {
        Some(label) => {
            if coordinator.try_begin(label.as_str()) {
                Some(label)
            } else {
                None
            }
        },
        None => None,
    }
}

/// Completes a refresh that `begin_cache_first_fetch` or
/// `begin_background_fetch` asked for: what was retrieved enters the view
/// and the store, and the label is released, whatever the retrieval gave.
pub fn finish_fetch(
    state: &mut AppState,
    coordinator: &mut FetchCoordinator,
    label_id: &str,
    fetched: Option<Vec<Message>>,
    now: Millis,
)
    ensures
        final(state)@ == after_refresh(
            old(state)@,
            match fetched {
                Some(m) => Some(m.deep_view()),
                None => None,
            },
            now,
        ),
        final(coordinator)@ == old(coordinator)@.remove(label_id@),
{
    fetch_messages_for_label(state, fetched, now);
    coordinator.end(label_id);
}

/// Completes a refresh that the user asked for: what was retrieved enters
/// the view and the store, and the loading flag is cleared.
pub fn finish_user_fetch(state: &mut AppState, fetched: Option<Vec<Message>>, now: Millis)
    ensures
        final(state)@ == (AppStateView {
            loading_messages: false,
            ..after_refresh(
                old(state)@,
                match fetched {
                    Some(m) => Some(m.deep_view()),
                    None => None,
                },
                now,
            )
        }),
{
    fetch_messages_for_label(state, fetched, now);
    state.set_loading_messages(false);
}

} // verus!
