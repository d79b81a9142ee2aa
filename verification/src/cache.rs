//! The time-boxed cache in front of the fetch pipeline.
//!
//! The cache holds the result of the last successful fetch together with the
//! instant at which it was stored, and keeps the book on the one fetch that
//! may be under way: who finds the cache stale while a fetch is in flight
//! does not start a second one but waits for the first, and is handed its
//! outcome.

use vstd::prelude::*;
use crate::error::EaseeError;
use crate::fetch::{copy_states, outcome_view, ChargerState, ChargerStateView};

verus! {

/// A fetched result and the instant at which it was stored. The two are
/// only ever replaced together.
#[derive(Debug)]
pub struct CacheEntry {
    value: Vec<ChargerState>,
    fetched_at: i64,
}

/// What a [`CacheEntry`] holds.
pub struct CacheEntryView {
    pub value: Seq<ChargerStateView>,
    pub fetched_at: i64,
}

impl View for CacheEntry {
    type V = CacheEntryView;

    closed spec fn view(&self) -> CacheEntryView {
        CacheEntryView { value: self.value.deep_view(), fetched_at: self.fetched_at }
    }
}

impl DeepView for CacheEntry {
    type V = CacheEntryView;

    open spec fn deep_view(&self) -> CacheEntryView {
        self@
    }
}

impl CacheEntry {
    /// The entry that holds `value` as of `fetched_at`.
    pub fn new(value: Vec<ChargerState>, fetched_at: i64) -> (entry: Self)
        ensures
            entry@ == (CacheEntryView { value: value.deep_view(), fetched_at }),
    {
        CacheEntry { value, fetched_at }
    }

    /// The states that were fetched.
    pub fn value(&self) -> (value: &Vec<ChargerState>)
        ensures
            value.deep_view() == self@.value,
    {
        &self.value
    }

    /// The instant at which they were stored.
    pub fn fetched_at(&self) -> (fetched_at: i64)
        ensures
            fetched_at == self@.fetched_at,
    {
        self.fetched_at
    }
}

/// The cache and its book on the fetch in flight.
#[derive(Debug)]
pub struct Cache {
    entry: Option<CacheEntry>,
    in_flight: bool,
    settled: u64,
    failure: Option<EaseeError>,
}

/// What a [`Cache`] holds: the entry, if a fetch ever succeeded; whether a
/// fetch is in flight; the number of the fetch that will settle next; and
/// how the fetch that settled last failed, if it did.
pub struct CacheView {
    pub entry: Option<CacheEntryView>,
    pub in_flight: bool,
    pub settled: u64,
    pub failure: Option<EaseeError>,
}

impl View for Cache {
    type V = CacheView;

    closed spec fn view(&self) -> CacheView {
        CacheView {
            entry: self.entry.deep_view(),
            in_flight: self.in_flight,
            settled: self.settled,
            failure: self.failure,
        }
    }
}

/// What a caller of [`Cache::get_or_refresh`] is to do.
#[derive(Debug)]
pub enum CachePlan {
    /// The cached states are fresh: here they are.
    Cached(Vec<ChargerState>),
    /// The cache is stale and nobody is fetching: fetch, and hand the
    /// outcome to [`Cache::complete`].
    Fetch,
    /// The cache is stale and a fetch is in flight: wait until it has
    /// settled, and ask [`Cache::outcome_for`] with this ticket.
    Wait { ticket: u64 },
}

/// A [`CachePlan`] with its states as a sequence of views.
pub enum CachePlanView {
    Cached(Seq<ChargerStateView>),
    Fetch,
    Wait { ticket: u64 },
}

impl View for CachePlan {
    type V = CachePlanView;

    open spec fn view(&self) -> CachePlanView {
        match self {
            CachePlan::Cached(states) => CachePlanView::Cached(states.deep_view()),
            CachePlan::Fetch => CachePlanView::Fetch,
            CachePlan::Wait { ticket } => CachePlanView::Wait { ticket: *ticket },
        }
    }
}

impl CacheView {
    /// The cache in which nothing was ever stored.
    pub open spec fn empty() -> CacheView {
        CacheView { entry: None, in_flight: false, settled: 0, failure: None }
    }

    /// Whether the cache answers a request at `now` from what it holds:
    /// there is an entry, and it is younger than `ttl`.
    pub open spec fn fresh(self, now: i64, ttl: u64) -> bool {
        self.entry is Some && now - self.entry.unwrap().fetched_at < ttl
    }

    /// What a request at `now` is told.
    pub open spec fn plan(self, now: i64, ttl: u64) -> CachePlanView {
        if self.fresh(now, ttl) {
            CachePlanView::Cached(self.entry.unwrap().value)
        } else if self.in_flight {
            CachePlanView::Wait { ticket: self.settled }
        } else {
            CachePlanView::Fetch
        }
    }

    /// The cache after a request at `now`: the same, but for the note that
    /// a fetch is in flight where the request was told to fetch.
    pub open spec fn requested(self, now: i64, ttl: u64) -> CacheView {
        if self.plan(now, ttl) is Fetch {
            CacheView { in_flight: true, ..self }
        } else {
            self
        }
    }

    /// The number of the fetch that settles after this one.
    pub open spec fn next_fetch(self) -> u64 {
        if self.settled == u64::MAX {
            0
        } else {
            (self.settled + 1) as u64
        }
    }

    /// The cache after the fetch in flight has settled at `now`: a success
    /// replaces the entry, value and instant as one; a failure leaves the
    /// entry as it was.
    pub open spec fn completed(self, outcome: Result<Seq<ChargerStateView>, EaseeError>, now: i64)
        -> CacheView {
        CacheView {
            entry: match outcome {
                Ok(value) => Some(CacheEntryView { value, fetched_at: now }),
                Err(_) => self.entry,
            },
            in_flight: false,
            settled: self.next_fetch(),
            failure: match outcome {
                Ok(_) => None,
                Err(error) => Some(error),
            },
        }
    }

    /// What the holder of `ticket` is handed: nothing while the fetch it
    /// waits for is in flight, afterwards the outcome of the fetch that
    /// settled last.
    pub open spec fn outcome_for(self, ticket: u64) -> Option<
        Result<Seq<ChargerStateView>, EaseeError>,
    > {
        if self.settled == ticket {
            None
        } else {
            match (self.failure, self.entry) {
                (Some(error), _) => Some(Err(error)),
                (None, Some(entry)) => Some(Ok(entry.value)),
                (None, None) => None,
            }
        }
    }
}

impl Cache {
    /// A cache in which nothing is stored and no fetch is in flight.
    pub fn new() -> (cache: Self)
        ensures
            cache@ == CacheView::empty(),
    {
        Cache { entry: None, in_flight: false, settled: 0, failure: None }
    }

    /// The entry, if a fetch ever succeeded.
    pub fn entry(&self) -> (entry: Option<&CacheEntry>)
        ensures
            entry.deep_view() == self@.entry,
    {
        self.entry.as_ref()
    }

    /// Whether a fetch is in flight.
    pub fn in_flight(&self) -> (in_flight: bool)
        ensures
            in_flight == self@.in_flight,
    {
        self.in_flight
    }

    /// Whether a request at `now` is answered from the cache: there is an
    /// entry, and less than `ttl` milliseconds have passed since it was
    /// stored.
    pub fn fresh(&self, now: i64, ttl: u64) -> (fresh: bool)
        ensures
            fresh == self@.fresh(now, ttl),
    {
        match &self.entry {
            Some(entry) => (now as i128) - (entry.fetched_at as i128) < (ttl as i128),
            None => false,
        }
    }

    /// Answers a request at `now` for states that are at most `ttl`
    /// milliseconds old.
    ///
    /// A fresh entry is handed out and nothing else happens. Otherwise the
    /// caller is told to fetch, unless a fetch is in flight already: then
    /// the caller is told to wait for that one.
    pub fn get_or_refresh(&mut self, now: i64, ttl: u64) -> (plan: CachePlan)
        ensures
            plan@ == old(self)@.plan(now, ttl),
            final(self)@ == old(self)@.requested(now, ttl),
    {
        if self.fresh(now, ttl) {
            match &self.entry {
                Some(entry) => CachePlan::Cached(copy_states(&entry.value)),
                None => CachePlan::Fetch,
            }
        } else if self.in_flight {
            CachePlan::Wait { ticket: self.settled }
        } else {
            self.in_flight = true;
            CachePlan::Fetch
        }
    }

    /// Takes in the outcome of the fetch in flight, which settled at `now`,
    /// and hands it back for the caller who fetched.
    ///
    /// A success replaces the entry as a whole. A failure leaves the entry
    /// as it was, and is reported to everybody who waited.
    pub fn complete(&mut self, outcome: Result<Vec<ChargerState>, EaseeError>, now: i64) -> (shared:
        Result<Vec<ChargerState>, EaseeError>)
        ensures
            outcome_view(shared) == outcome_view(outcome),
            final(self)@ == old(self)@.completed(outcome_view(outcome), now),
    {
        self.in_flight = false;
        self.settled = if self.settled == u64::MAX {
            0
        } else {
            self.settled + 1
        };
        match outcome {
            Ok(states) => {
                self.entry = Some(CacheEntry::new(copy_states(&states), now));
                self.failure = None;
                Ok(states)
            },
            Err(error) => {
                self.failure = Some(error);
                Err(error)
            },
        }
    }

    /// Hands the holder of `ticket` the outcome of the fetch it waited for;
    /// `None` while that fetch is still in flight.
    pub fn outcome_for(&self, ticket: u64) -> (outcome: Option<
        Result<Vec<ChargerState>, EaseeError>,
    >)
        ensures
            match self@.outcome_for(ticket) {
                Some(settled) => outcome is Some && outcome_view(outcome.unwrap()) == settled,
                None => outcome is None,
            },
    {
        if self.settled == ticket {
            None
        } else {
            match (self.failure, &self.entry) {
                (Some(error), _) => Some(Err(error)),
                (None, Some(entry)) => Some(Ok(copy_states(&entry.value))),
                (None, None) => None,
            }
        }
    }
}

impl Default for Cache {
    fn default() -> (cache: Self)
        ensures
            cache@ == CacheView::empty(),
    {
        Cache::new()
    }
}

/// The cache after a row of requests with no fetch settling in between;
/// each request is the instant at which it is made and the age it accepts.
pub open spec fn after_requests(cache: CacheView, requests: Seq<(i64, u64)>) -> CacheView
    decreases requests.len(),
{
    if requests.len() == 0 {
        cache
    } else {
        after_requests(cache.requested(requests[0].0, requests[0].1), requests.drop_first())
    }
}

/// How many of a row of requests, with no fetch settling in between, are
/// told to fetch.
pub open spec fn fetches_started(cache: CacheView, requests: Seq<(i64, u64)>) -> nat
    decreases requests.len(),
{
    if requests.len() == 0 {
        0
    } else {
        let started: nat = if cache.plan(requests[0].0, requests[0].1) is Fetch {
            1
        } else {
            0
        };
        started + fetches_started(
            cache.requested(requests[0].0, requests[0].1),
            requests.drop_first(),
        )
    }
}

/// A request that finds a fresh entry is handed that entry's states, and
/// the cache stays as it is: nothing is fetched.
pub proof fn lemma_fresh_entry_is_served(cache: CacheView, now: i64, ttl: u64)
    requires
        cache.entry is Some,
        now - cache.entry.unwrap().fetched_at < ttl,
    ensures
        cache.plan(now, ttl) == CachePlanView::Cached(cache.entry.unwrap().value),
        cache.requested(now, ttl) == cache,
{
}

/// A request that finds no entry, or one that is `ttl` old or older, is
/// never served from the cache.
pub proof fn lemma_stale_entry_is_not_served(cache: CacheView, now: i64, ttl: u64)
    requires
        cache.entry is None || now - cache.entry.unwrap().fetched_at >= ttl,
    ensures
        !(cache.plan(now, ttl) is Cached),
        !cache.in_flight ==> cache.plan(now, ttl) is Fetch,
{
}

/// While a fetch is in flight no request starts another, and every request
/// that is not served from the cache is told to wait for the fetch in
/// flight; the cache stays as it is.
pub proof fn lemma_no_second_fetch(cache: CacheView, requests: Seq<(i64, u64)>)
    requires
        cache.in_flight,
    ensures
        fetches_started(cache, requests) == 0,
        after_requests(cache, requests) == cache,
        forall|i: int|
            0 <= i < requests.len() && !cache.fresh(requests[i].0, requests[i].1) ==> (
            #[trigger] cache.plan(requests[i].0, requests[i].1)) == (CachePlanView::Wait {
                ticket: cache.settled,
            }),
    decreases requests.len(),
{
    if requests.len() > 0 {
        lemma_no_second_fetch(cache, requests.drop_first());
    }
}

/// Requests that race a stale cache start exactly one fetch between them:
/// where no fetch is in flight and none of the requests finds a fresh
/// entry, the first is told to fetch and all others to wait.
pub proof fn lemma_single_flight(cache: CacheView, requests: Seq<(i64, u64)>)
    requires
        !cache.in_flight,
        requests.len() > 0,
        forall|i: int| 0 <= i < requests.len() ==> !cache.fresh(requests[i].0, requests[i].1),
    ensures
        fetches_started(cache, requests) == 1,
        cache.plan(requests[0].0, requests[0].1) is Fetch,
        forall|i: int|
            1 <= i < requests.len() ==> (#[trigger] cache.requested(
                requests[0].0,
                requests[0].1,
            ).plan(requests[i].0, requests[i].1)) == (CachePlanView::Wait {
                ticket: cache.settled,
            }),
        after_requests(cache, requests) == (CacheView { in_flight: true, ..cache }),
{
    let flying = cache.requested(requests[0].0, requests[0].1);
    let others = requests.drop_first();
    lemma_no_second_fetch(flying, others);
    assert forall|i: int| 1 <= i < requests.len() implies (#[trigger] flying.plan(
        requests[i].0,
        requests[i].1,
    )) == (CachePlanView::Wait { ticket: cache.settled }) by {
        assert(others[i - 1] == requests[i]);
        assert(!flying.fresh(others[i - 1].0, others[i - 1].1));
    }
}

/// Everybody who waited is handed what the fetch came to: once the fetch
/// in flight has settled, the ticket that was given out while it flew
/// yields its outcome, the states on success and the error on failure.
pub proof fn lemma_waiters_share_outcome(
    cache: CacheView,
    outcome: Result<Seq<ChargerStateView>, EaseeError>,
    now: i64,
)
    ensures
        cache.outcome_for(cache.settled) is None,
        cache.completed(outcome, now).outcome_for(cache.settled) == Some(outcome),
{
}

/// Racing callers share one fetch and its outcome: of the requests that
/// find the cache stale with no fetch in flight, the first starts the one
/// fetch there is, and once that has settled, every other is handed, for
/// the ticket it was given, exactly what the fetch came to.
pub proof fn lemma_racing_callers_share_one_outcome(
    cache: CacheView,
    requests: Seq<(i64, u64)>,
    outcome: Result<Seq<ChargerStateView>, EaseeError>,
    now: i64,
)
    requires
        !cache.in_flight,
        requests.len() > 0,
        forall|i: int| 0 <= i < requests.len() ==> !cache.fresh(requests[i].0, requests[i].1),
    ensures
        fetches_started(cache, requests) == 1,
        forall|i: int|
            1 <= i < requests.len() ==> ({
                &&& (#[trigger] cache.requested(requests[0].0, requests[0].1).plan(
                    requests[i].0,
                    requests[i].1,
                )) matches CachePlanView::Wait { ticket }
                &&& after_requests(cache, requests).completed(outcome, now).outcome_for(ticket)
                    == Some(outcome)
            }),
{
    lemma_single_flight(cache, requests);
    lemma_waiters_share_outcome(after_requests(cache, requests), outcome, now);
}

/// A fetch that fails evicts nothing: the entry is the one from before,
/// while a fetch that succeeds stores its states with the instant at which
/// it settled.
pub proof fn lemma_failure_keeps_entry(
    cache: CacheView,
    outcome: Result<Seq<ChargerStateView>, EaseeError>,
    now: i64,
)
    ensures
        outcome is Err ==> cache.completed(outcome, now).entry == cache.entry,
        outcome is Ok ==> cache.completed(outcome, now).entry == Some(
            CacheEntryView { value: outcome.unwrap(), fetched_at: now },
        ),
        !cache.completed(outcome, now).in_flight,
{
}

} // verus!
