//! The engine state shared between the scheduler and inbound request
//! handling, and the decisions of one scheduler tick: the staleness check,
//! the installation of fetch and registry results, the broadcast decision
//! and its bookkeeping, and the on-demand responder's read-only answer.
//!
//! Every outbound call (forecast fetch, directory refresh, message send)
//! happens outside the library, between these guarded in-memory steps; each
//! step takes the call's outcome as a plain value and is verified for every
//! value of it.

use vstd::prelude::*;

use crate::errors::{EngineError, ErrorModel};
use crate::forecast::{spec_daily_point, DailyPoint, ForecastSnapshot};
use crate::gate::{due_to_broadcast, spec_due_to_broadcast, LOCAL_UTC_OFFSET, SECONDS_PER_DAY};
use crate::messages::Member;
use crate::render::{format_point_message, spec_point_message};

verus! {

/// Broadcast bookkeeping: when the last broadcast completed and when the
/// registry was last refreshed (epoch seconds, 0 = never).
#[derive(Clone, Copy, Debug)]
pub struct BroadcastBookkeeping {
    pub last_broadcast: u64,
    pub last_subscriber_update: u64,
}

/// The aggregate the shared-state guard protects: the cached snapshot, the
/// bookkeeping and the subscriber registry. Scheduler ticks and on-demand
/// requests read and write it only through the methods below.
#[derive(Debug)]
pub struct EngineState {
    /// The most recent successfully parsed forecast, if any.
    pub last_response: Option<ForecastSnapshot>,
    /// Broadcast and refresh bookkeeping.
    pub bookkeeping: BroadcastBookkeeping,
    /// The current set of known recipients, keyed by identifier.
    pub subscribers: Vec<Member>,
}

/// The calendar day of a UTC epoch timestamp, counted from the epoch: two
/// timestamps fall on the same UTC calendar date iff their day numbers agree.
pub open spec fn spec_day_number(ts: int) -> int {
    ts / (SECONDS_PER_DAY as int)
}

/// The staleness decision: a refetch is needed when no snapshot is cached,
/// when the cached snapshot's reference point (index 1) cannot be read, or
/// when that point's calendar date is not the current date.
pub open spec fn spec_needs_refetch(st: EngineState, now: int) -> bool {
    match st.last_response {
        Option::None => true,
        Option::Some(snap) => match spec_daily_point(snap, 1) {
            Ok(p) => spec_day_number(p.time as int) != spec_day_number(now),
            Err(_) => true,
        },
    }
}

/// What one broadcast evaluation decided.
#[derive(Debug)]
pub enum BroadcastDecision {
    /// Not due: outside the local hour window, or broadcast too recently.
    NotDue,
    /// Due, but no snapshot is cached; nothing to send.
    NoSnapshot,
    /// Due, but the snapshot cannot be reported (too few points or a
    /// required field missing); nothing was sent and the bookkeeping is
    /// untouched, so the next tick inside the window retries.
    Failed(EngineError),
    /// The message to fan out to every subscriber.
    Send(String),
}

/// The mathematical image of a `BroadcastDecision`.
pub enum DecisionModel {
    NotDue,
    NoSnapshot,
    Failed(ErrorModel),
    Send(Seq<char>),
}

impl View for BroadcastDecision {
    type V = DecisionModel;

    open spec fn view(&self) -> DecisionModel {
        match self {
            BroadcastDecision::NotDue => DecisionModel::NotDue,
            BroadcastDecision::NoSnapshot => DecisionModel::NoSnapshot,
            BroadcastDecision::Failed(e) => DecisionModel::Failed(e@),
            BroadcastDecision::Send(m) => DecisionModel::Send(m@),
        }
    }
}

/// The message owed for a snapshot's "tomorrow" point, or why none can be
/// built.
pub open spec fn spec_tomorrow_message(snap: ForecastSnapshot) -> Result<Seq<char>, ErrorModel> {
    match spec_daily_point(snap, 2) {
        Err(e) => Err(e),
        Ok(p) => spec_point_message(p),
    }
}

/// The broadcast decision owed at `now`: gate first, then snapshot
/// availability, then the tomorrow message.
pub open spec fn spec_broadcast_decision(st: EngineState, now: int) -> DecisionModel {
    if !spec_due_to_broadcast(now, st.bookkeeping.last_broadcast as int) {
        DecisionModel::NotDue
    } else {
        match st.last_response {
            Option::None => DecisionModel::NoSnapshot,
            Option::Some(snap) => match spec_tomorrow_message(snap) {
                Err(e) => DecisionModel::Failed(e),
                Ok(m) => DecisionModel::Send(m),
            },
        }
    }
}

/// The on-demand answer for the current state: the tomorrow message if a
/// snapshot is cached and reportable, otherwise nothing (a graceful no-op).
pub open spec fn spec_on_demand_message(st: EngineState) -> Option<Seq<char>> {
    match st.last_response {
        Option::None => Option::None,
        Option::Some(snap) => match spec_tomorrow_message(snap) {
            Ok(m) => Option::Some(m),
            Err(_) => Option::None,
        },
    }
}

/// The state after a successful fetch is installed: the snapshot replaced
/// wholesale, everything else untouched.
pub open spec fn spec_install(st: EngineState, snap: ForecastSnapshot) -> EngineState {
    EngineState { last_response: Option::Some(snap), ..st }
}

/// Staleness triggers at most one fetch per calendar reference date: once a
/// fetched snapshot whose reference point (index 1) is dated the current day
/// is installed, every further staleness check on the same calendar day
/// answers false — the second check is a no-op.
pub proof fn lemma_staleness_once_per_date(
    st: EngineState,
    snap: ForecastSnapshot,
    p: DailyPoint,
    now1: int,
    now2: int,
)
    requires
        spec_daily_point(snap, 1) == Ok::<DailyPoint, ErrorModel>(p),
        spec_day_number(p.time as int) == spec_day_number(now1),
        spec_day_number(now2) == spec_day_number(now1),
    ensures
        !spec_needs_refetch(spec_install(st, snap), now2),
{
}

/// A day rollover makes the cache stale exactly once: with a cached snapshot
/// whose reference point is dated day D, every staleness check on day D + 1
/// answers true; and once the triggered fetch installs a snapshot dated
/// D + 1, every further check on day D + 1 answers false.
pub proof fn lemma_rollover_fires_exactly_once(
    st: EngineState,
    cached: ForecastSnapshot,
    fresh: ForecastSnapshot,
    p: DailyPoint,
    q: DailyPoint,
    now1: int,
    now2: int,
)
    requires
        st.last_response == Some(cached),
        spec_daily_point(cached, 1) == Ok::<DailyPoint, ErrorModel>(p),
        spec_day_number(now1) == spec_day_number(p.time as int) + 1,
        spec_daily_point(fresh, 1) == Ok::<DailyPoint, ErrorModel>(q),
        spec_day_number(q.time as int) == spec_day_number(now1),
        spec_day_number(now2) == spec_day_number(now1),
    ensures
        spec_needs_refetch(st, now1),
        !spec_needs_refetch(spec_install(st, fresh), now2),
{
}

impl EngineState {
    /// The initial state: no snapshot, never broadcast, never refreshed,
    /// empty registry.
    pub fn new() -> (st: EngineState)
        ensures
            st.last_response is None,
            st.bookkeeping.last_broadcast == 0,
            st.bookkeeping.last_subscriber_update == 0,
            st.subscribers@ =~= Seq::<Member>::empty(),
    {
        EngineState {
            last_response: Option::None,
            bookkeeping: BroadcastBookkeeping { last_broadcast: 0, last_subscriber_update: 0 },
            subscribers: Vec::new(),
        }
    }

    /// The staleness decision for the current tick.
    pub fn needs_refetch(&self, now: u64) -> (stale: bool)
        ensures
            stale == spec_needs_refetch(*self, now as int),
    {
        match &self.last_response {
            Option::None => true,
            Option::Some(snap) => match snap.today() {
                Ok(p) => p.time / SECONDS_PER_DAY != now / SECONDS_PER_DAY,
                Err(_) => true,
            },
        }
    }

    /// Installs the outcome of one forecast fetch: a success replaces the
    /// snapshot wholesale, a failure changes nothing — a failed fetch never
    /// clears existing data.
    pub fn install_fetch_result(&mut self, fetched: Result<ForecastSnapshot, EngineError>)
        ensures
            match fetched {
                Ok(snap) => {
                    &&& final(self).last_response == Some(snap)
                    &&& final(self).bookkeeping == old(self).bookkeeping
                    &&& final(self).subscribers == old(self).subscribers
                },
                Err(_) => *final(self) == *old(self),
            },
    {
        match fetched {
            Ok(snap) => {
                self.last_response = Option::Some(snap);
            },
            Err(_) => {},
        }
    }

    /// Installs the outcome of one registry refresh: a success replaces the
    /// whole registry atomically and records the refresh time, a failure
    /// leaves the prior registry intact (stale but available).
    pub fn install_registry_result(&mut self, now: u64, fetched: Result<Vec<Member>, EngineError>)
        ensures
            match fetched {
                Ok(members) => {
                    &&& final(self).subscribers == members
                    &&& final(self).bookkeeping.last_subscriber_update == now
                    &&& final(self).bookkeeping.last_broadcast
                        == old(self).bookkeeping.last_broadcast
                    &&& final(self).last_response == old(self).last_response
                },
                Err(_) => *final(self) == *old(self),
            },
    {
        match fetched {
            Ok(members) => {
                self.subscribers = members;
                self.bookkeeping.last_subscriber_update = now;
            },
            Err(_) => {},
        }
    }

    /// Applies the outcomes of one tick's outbound phase in order. The fetch
    /// outcome is present exactly when the staleness decision asked for a
    /// refetch, and the registry refresh is coupled to the refetch attempt:
    /// it runs iff the fetch ran, whatever the fetch returned. A failed fetch
    /// keeps the prior snapshot, a failed refresh the prior registry; the
    /// broadcast bookkeeping never moves here.
    pub fn apply_tick_results(
        &mut self,
        now: u64,
        fetched: Option<Result<ForecastSnapshot, EngineError>>,
        members: Option<Result<Vec<Member>, EngineError>>,
    )
        requires
            (fetched is Some) == spec_needs_refetch(*old(self), now as int),
            (members is Some) == (fetched is Some),
        ensures
            final(self).last_response == (match fetched {
                Some(Ok(snap)) => Some(snap),
                _ => old(self).last_response,
            }),
            final(self).subscribers == (match members {
                Some(Ok(ms)) => ms,
                _ => old(self).subscribers,
            }),
            final(self).bookkeeping.last_subscriber_update == (match members {
                Some(Ok(ms)) => now,
                _ => old(self).bookkeeping.last_subscriber_update,
            }),
            final(self).bookkeeping.last_broadcast == old(self).bookkeeping.last_broadcast,
    {
        match fetched {
            Option::Some(f) => self.install_fetch_result(f),
            Option::None => {},
        }
        match members {
            Option::Some(m) => self.install_registry_result(now, m),
            Option::None => {},
        }
    }

    /// Evaluates the broadcast gate and, when due, the tomorrow message.
    /// Reads only; the bookkeeping moves separately, in `record_broadcast`,
    /// once every send was attempted.
    pub fn broadcast_decision(&self, now: u64) -> (d: BroadcastDecision)
        requires
            now + LOCAL_UTC_OFFSET <= u64::MAX,
        ensures
            d@ == spec_broadcast_decision(*self, now as int),
    {
        if !due_to_broadcast(now, self.bookkeeping.last_broadcast) {
            return BroadcastDecision::NotDue;
        }
        match &self.last_response {
            Option::None => BroadcastDecision::NoSnapshot,
            Option::Some(snap) => match snap.tomorrow() {
                Err(e) => BroadcastDecision::Failed(e),
                Ok(p) => match format_point_message(&p) {
                    Err(e) => BroadcastDecision::Failed(e),
                    Ok(m) => BroadcastDecision::Send(m),
                },
            },
        }
    }

    /// Records a completed broadcast. Runs only after every send was
    /// attempted; how many of them failed does not matter — fan-out is
    /// best-effort.
    pub fn record_broadcast(&mut self, now: u64)
        ensures
            final(self).bookkeeping.last_broadcast == now,
            final(self).bookkeeping.last_subscriber_update
                == old(self).bookkeeping.last_subscriber_update,
            final(self).last_response == old(self).last_response,
            final(self).subscribers == old(self).subscribers,
    {
        self.bookkeeping.last_broadcast = now;
    }

    /// The on-demand responder's read: the tomorrow message for the single
    /// requesting recipient, or nothing when no reportable snapshot is
    /// cached. Never touches the broadcast bookkeeping.
    pub fn on_demand_message(&self) -> (r: Option<String>)
        ensures
            match r {
                Some(m) => spec_on_demand_message(*self) == Some(m@),
                None => spec_on_demand_message(*self) is None,
            },
    {
        match &self.last_response {
            Option::None => Option::None,
            Option::Some(snap) => match snap.tomorrow() {
                Err(_) => Option::None,
                Ok(p) => match format_point_message(&p) {
                    Err(_) => Option::None,
                    Ok(m) => Option::Some(m),
                },
            },
        }
    }
}

} // verus!
