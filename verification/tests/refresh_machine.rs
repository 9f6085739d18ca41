use sol_slot_leader::cache::SlotLeaderCache;
use sol_slot_leader::db::SlotLeaderRow;
use sol_slot_leader::refresh::{
    begin_refresh, refresh_step, tick_starts_refresh, RefreshAction, RefreshError, RefreshEvent,
    RefreshPlan, RefreshState, REFRESH_PERIOD_SECS,
};
use sol_slot_leader::types::ClientType;
use sol_slot_leader::{DbConfig, SlotOracle};

fn row(slot: u64, client_type: ClientType) -> SlotLeaderRow {
    SlotLeaderRow { slot, client_type, name: None }
}

fn new_cache() -> SlotLeaderCache {
    SlotLeaderCache::empty(DbConfig::new("mysql://db"), "http://rpc")
}

#[test]
fn period_and_first_tick() {
    assert_eq!(REFRESH_PERIOD_SECS, 600);
    assert!(!tick_starts_refresh(0));
    assert!(tick_starts_refresh(1));
    assert!(tick_starts_refresh(u64::MAX));
}

#[test]
fn a_successful_refresh_runs_in_order() {
    let mut c = new_cache();
    let (s, a) = begin_refresh();
    assert_eq!((s, a), (RefreshState::AwaitingSlot, RefreshAction::GetCurrentSlot));
    let (s, a) = refresh_step(&mut c, s, RefreshEvent::CurrentSlot(100));
    assert_eq!(s, RefreshState::AwaitingMaxSlot { current_slot: 100 });
    assert_eq!(a, RefreshAction::FetchMaxDbSlot);
    let (s, a) = refresh_step(&mut c, s, RefreshEvent::MaxDbSlot(Some(105)));
    let plan = RefreshPlan { from_slot: 100, to_slot: 105, db_lagging: false };
    assert_eq!(s, RefreshState::Loading { plan });
    assert_eq!(a, RefreshAction::FetchRange { plan });
    assert!(c.is_empty());
    assert_eq!(c.cached_range(), None);
    let (s, a) = refresh_step(
        &mut c,
        s,
        RefreshEvent::Rows(vec![row(99, ClientType::Agave), row(101, ClientType::JitoLabs), row(102, ClientType::Rakurai)]),
    );
    assert_eq!(s, RefreshState::Finished);
    assert_eq!(a, RefreshAction::Done { fetched: 3, cached_total: 2 });
    assert_eq!(c.cached_range(), Some((100, 105)));
    assert!(c.leader_at(99).is_none());
    assert!(c.leader_at(101).unwrap().is_jito());
}

#[test]
fn lagging_database_is_flagged() {
    let mut c = new_cache();
    let s = RefreshState::AwaitingMaxSlot { current_slot: 50 };
    let (_, a) = refresh_step(&mut c, s, RefreshEvent::MaxDbSlot(Some(40)));
    assert_eq!(
        a,
        RefreshAction::FetchRange { plan: RefreshPlan { from_slot: 50, to_slot: 40, db_lagging: true } }
    );
}

fn loaded_cache() -> SlotLeaderCache {
    let mut c = new_cache();
    let plan = RefreshPlan { from_slot: 10, to_slot: 12, db_lagging: false };
    let (_, a) = refresh_step(
        &mut c,
        RefreshState::Loading { plan },
        RefreshEvent::Rows(vec![row(10, ClientType::Agave), row(11, ClientType::FireDancer)]),
    );
    assert_eq!(a, RefreshAction::Done { fetched: 2, cached_total: 2 });
    c
}

fn assert_unchanged(c: &SlotLeaderCache) {
    assert_eq!(c.cached_range(), Some((10, 12)));
    assert_eq!(c.len(), 2);
    assert_eq!(c.leader_at(11).unwrap().client_type, ClientType::FireDancer);
}

#[test]
fn failures_leave_the_cache_as_it_was() {
    let states = [
        RefreshState::AwaitingSlot,
        RefreshState::AwaitingMaxSlot { current_slot: 20 },
        RefreshState::Loading { plan: RefreshPlan { from_slot: 20, to_slot: 30, db_lagging: false } },
        RefreshState::Finished,
    ];
    for s in states {
        let mut c = loaded_cache();
        let (next, a) = refresh_step(&mut c, s, RefreshEvent::IoFailed);
        assert_eq!((next, a), (RefreshState::Finished, RefreshAction::Fail(RefreshError::Io)));
        assert_unchanged(&c);
    }
}

#[test]
fn empty_table_fails_without_change() {
    let mut c = loaded_cache();
    let (s, a) = refresh_step(&mut c, RefreshState::AwaitingMaxSlot { current_slot: 20 }, RefreshEvent::MaxDbSlot(None));
    assert_eq!((s, a), (RefreshState::Finished, RefreshAction::Fail(RefreshError::EmptyTable)));
    assert_unchanged(&c);
}

#[test]
fn unexpected_outcomes_fail_without_change() {
    let mut c = loaded_cache();
    let (s, a) = refresh_step(&mut c, RefreshState::AwaitingSlot, RefreshEvent::Rows(vec![row(20, ClientType::Agave)]));
    assert_eq!((s, a), (RefreshState::Finished, RefreshAction::Fail(RefreshError::UnexpectedEvent)));
    assert_unchanged(&c);
    let (_, a) = refresh_step(&mut c, RefreshState::Finished, RefreshEvent::CurrentSlot(5));
    assert_eq!(a, RefreshAction::Fail(RefreshError::UnexpectedEvent));
    let (_, a) = refresh_step(
        &mut c,
        RefreshState::Loading { plan: RefreshPlan { from_slot: 1, to_slot: 2, db_lagging: false } },
        RefreshEvent::MaxDbSlot(Some(3)),
    );
    assert_eq!(a, RefreshAction::Fail(RefreshError::UnexpectedEvent));
    assert_unchanged(&c);
}
