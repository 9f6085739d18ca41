//! The decisions of one refresh: which slot range to load, when a refresh
//! fails, and the order of its steps, as a machine that the caller drives with
//! the outcome of each outside call.

use vstd::prelude::*;

use crate::cache::{evict_before, insert_rows, SlotLeaderCache};
use crate::db::SlotLeaderRow;

verus! {

/// The slot range that one refresh loads: from the current slot of the cluster
/// to the largest slot in the database.
#[derive(Debug, Clone, Copy, PartialEq, Eq)]
pub struct RefreshPlan {
    pub from_slot: u64,
    pub to_slot: u64,
    /// The database's largest slot lies before the current slot: its data lags.
    pub db_lagging: bool,
}

/// Why a refresh cannot go ahead.
#[derive(Debug, Clone, Copy, PartialEq, Eq)]
pub enum RefreshError {
    /// The `slot_leader` table holds no slot.
    EmptyTable,
    /// An RPC or database call failed.
    Io,
    /// An outcome arrived that the refresh was not waiting for.
    UnexpectedEvent,
}

/// The period of the background refresh, in seconds (10 minutes).
pub const REFRESH_PERIOD_SECS: u64 = 600;

/// Whether the timer tick numbered `tick` (from 0) starts a refresh: the first
/// tick fires at once, when the cache has just been loaded, and is skipped.
pub fn tick_starts_refresh(tick: u64) -> (r: bool)
    ensures
        r == (tick > 0),
{
    tick > 0
}

/// Where one refresh stands.
#[derive(Debug, Clone, Copy, PartialEq, Eq)]
pub enum RefreshState {
    /// Waiting for the current slot of the cluster.
    AwaitingSlot,
    /// Waiting for the largest slot in the database.
    AwaitingMaxSlot { current_slot: u64 },
    /// Waiting for the rows of the planned range.
    Loading { plan: RefreshPlan },
    /// The refresh has ended, well or not.
    Finished,
}

/// The outcome of the outside call that a refresh asked for.
#[derive(Debug, Clone)]
pub enum RefreshEvent {
    /// The RPC node gave the current slot.
    CurrentSlot(u64),
    /// The database gave its largest slot (`None`: the table is empty).
    MaxDbSlot(Option<u64>),
    /// The database gave the rows of the planned range.
    Rows(Vec<SlotLeaderRow>),
    /// The call failed.
    IoFailed,
}

/// What the caller does next.
#[derive(Debug, Clone, Copy, PartialEq, Eq)]
pub enum RefreshAction {
    /// Ask the RPC node for the current slot.
    GetCurrentSlot,
    /// Ask the database for its largest slot.
    FetchMaxDbSlot,
    /// Ask the database for the rows of the plan's range (and warn when it lags).
    FetchRange { plan: RefreshPlan },
    /// The rows are in the cache: `fetched` rows were loaded, `cached_total` slots are cached.
    Done { fetched: usize, cached_total: usize },
    /// The refresh failed; the cache is as it was.
    Fail(RefreshError),
}

/// How a refresh starts: it asks for the current slot.
pub fn begin_refresh() -> (r: (RefreshState, RefreshAction))
    ensures
        r == (RefreshState::AwaitingSlot, RefreshAction::GetCurrentSlot),
{
    (RefreshState::AwaitingSlot, RefreshAction::GetCurrentSlot)
}

/// The entries and the cached range of `b` are those of `a`.
pub open spec fn cache_unchanged(a: SlotLeaderCache, b: SlotLeaderCache) -> bool {
    &&& b.entries() == a.entries()
    &&& b.range() == a.range()
}

/// One step of a refresh: from where it stands and the outcome of the call it
/// asked for, to where it stands next and what the caller does next. Only the
/// rows of a planned range change the cache; every failure leaves it as it was.
pub fn refresh_step(cache: &mut SlotLeaderCache, state: RefreshState, event: RefreshEvent) -> (r: (
    RefreshState,
    RefreshAction,
))
    ensures
        final(cache).config() == old(cache).config(),
        final(cache).endpoint() == old(cache).endpoint(),
        match (state, event) {
            (RefreshState::AwaitingSlot, RefreshEvent::CurrentSlot(c)) => {
                &&& r == (
                    RefreshState::AwaitingMaxSlot { current_slot: c },
                    RefreshAction::FetchMaxDbSlot,
                )
                &&& cache_unchanged(*old(cache), *final(cache))
            },
            (RefreshState::AwaitingMaxSlot { current_slot }, RefreshEvent::MaxDbSlot(m)) => {
                &&& match m {
                    None => r == (
                        RefreshState::Finished,
                        RefreshAction::Fail(RefreshError::EmptyTable),
                    ),
                    Some(max) => {
                        let plan = RefreshPlan {
                            from_slot: current_slot,
                            to_slot: max,
                            db_lagging: max < current_slot,
                        };
                        r == (RefreshState::Loading { plan }, RefreshAction::FetchRange { plan })
                    },
                }
                &&& cache_unchanged(*old(cache), *final(cache))
            },
            (RefreshState::Loading { plan }, RefreshEvent::Rows(rows)) => {
                &&& final(cache).entries() == evict_before(
                    insert_rows(old(cache).entries(), rows@),
                    plan.from_slot,
                )
                &&& final(cache).range() == Some((plan.from_slot, plan.to_slot))
                &&& r == (
                    RefreshState::Finished,
                    RefreshAction::Done {
                        fetched: rows@.len() as usize,
                        cached_total: final(cache).entries().len() as usize,
                    },
                )
            },
            (_, RefreshEvent::IoFailed) => {
                &&& r == (RefreshState::Finished, RefreshAction::Fail(RefreshError::Io))
                &&& cache_unchanged(*old(cache), *final(cache))
            },
            _ => {
                &&& r == (RefreshState::Finished, RefreshAction::Fail(RefreshError::UnexpectedEvent))
                &&& cache_unchanged(*old(cache), *final(cache))
            },
        },
        r.1 is Fail ==> cache_unchanged(*old(cache), *final(cache)),
        r.1 is Done ==> final(cache).range() is Some,
        old(cache).range() is Some ==> final(cache).range() is Some,
{
    match (state, event) {
        (RefreshState::AwaitingSlot, RefreshEvent::CurrentSlot(c)) => (
            RefreshState::AwaitingMaxSlot { current_slot: c },
            RefreshAction::FetchMaxDbSlot,
        ),
        (RefreshState::AwaitingMaxSlot { current_slot }, RefreshEvent::MaxDbSlot(m)) => {
            match plan_refresh(current_slot, m) {
                Ok(plan) => (RefreshState::Loading { plan }, RefreshAction::FetchRange { plan }),
                Err(e) => (RefreshState::Finished, RefreshAction::Fail(e)),
            }
        },
        (RefreshState::Loading { plan }, RefreshEvent::Rows(rows)) => {
            let fetched = cache.apply_refresh(&plan, rows);
            let cached_total = cache.len();
            (RefreshState::Finished, RefreshAction::Done { fetched, cached_total })
        },
        (_, RefreshEvent::IoFailed) => (RefreshState::Finished, RefreshAction::Fail(RefreshError::Io)),
        _ => (RefreshState::Finished, RefreshAction::Fail(RefreshError::UnexpectedEvent)),
    }
}

/// The plan of a refresh, from the current slot and the database's largest slot.
pub fn plan_refresh(current_slot: u64, max_db_slot: Option<u64>) -> (r: Result<RefreshPlan, RefreshError>)
    ensures
        match max_db_slot {
            None => r == Err::<RefreshPlan, RefreshError>(RefreshError::EmptyTable),
            Some(m) => r == Ok::<RefreshPlan, RefreshError>(
                RefreshPlan { from_slot: current_slot, to_slot: m, db_lagging: m < current_slot },
            ),
        },
{
    match max_db_slot {
        None => Err(RefreshError::EmptyTable),
        Some(m) => Ok(RefreshPlan { from_slot: current_slot, to_slot: m, db_lagging: m < current_slot }),
    }
}

} // verus!
