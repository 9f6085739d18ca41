//! The in-memory slot-leader cache and the step that applies a refresh to it.

use dashmap::DashMap;
use vstd::prelude::*;
use vstd::string::StringExecFns;

use crate::db::{DbConfig, SlotLeaderRow};
use crate::refresh::RefreshPlan;
use crate::slot_map::{
    no_entries, slot_map_contents, slot_map_get, slot_map_insert, slot_map_is_empty, slot_map_len,
    slot_map_new, slot_map_retain_from,
};
use crate::{LeaderInfo, SlotOracle};

verus! {

/// The leader information that a row of the table gives.
pub open spec fn info_of(row: SlotLeaderRow) -> LeaderInfo {
    LeaderInfo { client_type: row.client_type, name: row.name }
}

/// `m` after inserting the rows in order: for a slot that several rows name,
/// the last of them wins.
pub open spec fn insert_rows(m: Map<u64, LeaderInfo>, rows: Seq<SlotLeaderRow>) -> Map<u64, LeaderInfo>
    decreases rows.len(),
{
    if rows.len() == 0 {
        m
    } else {
        insert_rows(m, rows.drop_last()).insert(rows.last().slot, info_of(rows.last()))
    }
}

/// `m` without the entries of the slots before `first_slot`.
pub open spec fn evict_before(m: Map<u64, LeaderInfo>, first_slot: u64) -> Map<u64, LeaderInfo> {
    m.restrict(Set::new(|s: u64| s >= first_slot))
}

/// Whether the entry of `slot` stays in the cache once `first_slot` is current.
pub fn slot_is_kept(slot: u64, first_slot: u64) -> (r: bool)
    ensures
        r == (slot >= first_slot),
{
    slot >= first_slot
}

proof fn lemma_insert_rows_finite(m: Map<u64, LeaderInfo>, rows: Seq<SlotLeaderRow>)
    requires
        m.dom().finite(),
    ensures
        insert_rows(m, rows).dom().finite(),
    decreases rows.len(),
{
    if rows.len() > 0 {
        lemma_insert_rows_finite(m, rows.drop_last());
    }
}

proof fn lemma_evict_before_finite(m: Map<u64, LeaderInfo>, first_slot: u64)
    requires
        m.dom().finite(),
    ensures
        evict_before(m, first_slot).dom().finite(),
{
    let keep = Set::new(|s: u64| s >= first_slot);
    assert(evict_before(m, first_slot).dom() =~= m.dom().intersect(keep));
}

/// Whether `i` is the last position of `rows` whose row names `slot`.
pub open spec fn is_last_row_for(rows: Seq<SlotLeaderRow>, slot: u64, i: int) -> bool {
    &&& 0 <= i < rows.len()
    &&& rows[i].slot == slot
    &&& forall|j: int| i < j < rows.len() ==> rows[j].slot != slot
}

/// Whether some row of `rows` names `slot`.
pub open spec fn rows_name(rows: Seq<SlotLeaderRow>, slot: u64) -> bool {
    exists|i: int| 0 <= i < rows.len() && rows[i].slot == slot
}

proof fn lemma_insert_rows_get(m: Map<u64, LeaderInfo>, rows: Seq<SlotLeaderRow>, slot: u64)
    ensures
        !rows_name(rows, slot) ==> insert_rows(m, rows).get(slot) == m.get(slot),
        rows_name(rows, slot) ==> exists|i: int|
            is_last_row_for(rows, slot, i) && insert_rows(m, rows).get(slot) == Some(
                info_of(#[trigger] rows[i]),
            ),
    decreases rows.len(),
{
    if rows.len() > 0 {
        let init = rows.drop_last();
        lemma_insert_rows_get(m, init, slot);
        let n = rows.len() - 1;
        if rows[n].slot == slot {
            assert(is_last_row_for(rows, slot, n));
        } else {
            if rows_name(rows, slot) {
                let k = choose|k: int| 0 <= k < rows.len() && rows[k].slot == slot;
                assert(init[k].slot == slot);
                let i = choose|i: int|
                    is_last_row_for(init, slot, i) && insert_rows(m, init).get(slot) == Some(
                        info_of(#[trigger] init[i]),
                    );
                assert(init[i] == rows[i]);
                assert forall|j: int| i < j < rows.len() implies rows[j].slot != slot by {
                    if j < n {
                        assert(init[j] == rows[j]);
                    }
                }
                assert(is_last_row_for(rows, slot, i));
            } else {
                assert forall|k: int| 0 <= k < init.len() implies init[k].slot != slot by {
                    assert(init[k] == rows[k]);
                }
            }
        }
    }
}

proof fn lemma_last_row_unique(rows: Seq<SlotLeaderRow>, slot: u64, i: int, j: int)
    requires
        is_last_row_for(rows, slot, i),
        is_last_row_for(rows, slot, j),
    ensures
        i == j,
{
}

/// What a refresh leaves for each slot: nothing before the first slot of the
/// refresh; from it on, the last loaded row of the slot, or where no row names
/// the slot, what was cached before.
pub proof fn law_refresh_lookup(
    m: Map<u64, LeaderInfo>,
    rows: Seq<SlotLeaderRow>,
    first_slot: u64,
    slot: u64,
)
    ensures
        slot < first_slot ==> evict_before(insert_rows(m, rows), first_slot).get(slot) is None,
        slot >= first_slot && !rows_name(rows, slot) ==> evict_before(
            insert_rows(m, rows),
            first_slot,
        ).get(slot) == m.get(slot),
        slot >= first_slot && rows_name(rows, slot) ==> exists|i: int|
            is_last_row_for(rows, slot, i) && evict_before(insert_rows(m, rows), first_slot).get(
                slot,
            ) == Some(info_of(#[trigger] rows[i])),
        slot >= first_slot && rows_name(rows, slot) ==> exists|i: int|
            #![trigger rows[i]]
            is_last_row_for(rows, slot, i) && evict_before(
                insert_rows(m, rows),
                first_slot,
            ).dom().contains(slot) && evict_before(insert_rows(m, rows), first_slot)[slot].client_type
                == rows[i].client_type && evict_before(insert_rows(m, rows), first_slot)[slot].name
                == rows[i].name,
        evict_before(insert_rows(m, rows), first_slot).dom().contains(slot) <==> (slot
            >= first_slot && (m.dom().contains(slot) || rows_name(rows, slot))),
{
    lemma_insert_rows_get(m, rows, slot);
}

/// Applying the same loaded rows again, with the same first slot, changes nothing.
pub proof fn law_refresh_repeat(m: Map<u64, LeaderInfo>, rows: Seq<SlotLeaderRow>, first_slot: u64)
    ensures
        evict_before(insert_rows(evict_before(insert_rows(m, rows), first_slot), rows), first_slot)
            == evict_before(insert_rows(m, rows), first_slot),
{
    let once = evict_before(insert_rows(m, rows), first_slot);
    let twice = evict_before(insert_rows(once, rows), first_slot);
    assert forall|k: u64| #[trigger] twice.get(k) == once.get(k) by {
        law_refresh_lookup(m, rows, first_slot, k);
        law_refresh_lookup(once, rows, first_slot, k);
        if k >= first_slot && rows_name(rows, k) {
            let i = choose|i: int|
                is_last_row_for(rows, k, i) && once.get(k) == Some(info_of(#[trigger] rows[i]));
            let j = choose|j: int|
                is_last_row_for(rows, k, j) && twice.get(k) == Some(info_of(#[trigger] rows[j]));
            lemma_last_row_unique(rows, k, i, j);
        }
    }
    assert forall|k: u64| #[trigger] twice.dom().contains(k) == once.dom().contains(k) by {
        assert(twice.get(k) == once.get(k));
    }
    assert forall|k: u64| #[trigger] twice.dom().contains(k) implies twice[k] == once[k] by {
        assert(twice.get(k) == once.get(k));
    }
    assert(twice =~= once);
}

/// The in-memory cache: the leader of each loaded slot, the slot range of the
/// last refresh, and where refreshes load from.
pub struct SlotLeaderCache {
    map: DashMap<u64, LeaderInfo>,
    last_range: Option<(u64, u64)>,
    db_config: DbConfig,
    rpc_url: String,
}

impl SlotLeaderCache {
    /// The cached leader information, by slot.
    pub closed spec fn entries(&self) -> Map<u64, LeaderInfo> {
        slot_map_contents(self.map)
    }

    /// The slot range of the last refresh; `None` before the first.
    pub closed spec fn range(&self) -> Option<(u64, u64)> {
        self.last_range
    }

    /// The database that refreshes load from.
    pub closed spec fn config(&self) -> DbConfig {
        self.db_config
    }

    /// The RPC endpoint that refreshes take the current slot from.
    pub closed spec fn endpoint(&self) -> Seq<char> {
        self.rpc_url@
    }

    #[verifier::type_invariant]
    closed spec fn entries_finite(&self) -> bool {
        self.entries().dom().finite()
    }

    /// A cache without entries, not yet refreshed.
    pub fn empty(db_config: DbConfig, rpc_url: &str) -> (r: SlotLeaderCache)
        ensures
            r.entries() == no_entries(),
            r.range() is None,
            r.config() == db_config,
            r.endpoint() == rpc_url@,
    {
        SlotLeaderCache {
            map: slot_map_new(),
            last_range: None,
            db_config,
            rpc_url: String::from_str(rpc_url),
        }
    }

    pub fn db_config(&self) -> (r: &DbConfig)
        ensures
            *r == self.config(),
    {
        &self.db_config
    }

    pub fn rpc_url(&self) -> (r: &str)
        ensures
            r@ == self.endpoint(),
    {
        self.rpc_url.as_str()
    }

    /// The slot range of the last refresh; `None` before the first.
    pub fn cached_range(&self) -> (r: Option<(u64, u64)>)
        ensures
            r == self.range(),
    {
        self.last_range
    }

    /// The number of cached slots.
    pub fn len(&self) -> (r: usize)
        ensures
            r == self.entries().len(),
    {
        slot_map_len(&self.map)
    }

    /// Whether no slot is cached.
    pub fn is_empty(&self) -> (r: bool)
        ensures
            r == (self.entries().len() == 0),
            r == self.entries().dom().is_empty(),
    {
        proof {
            use_type_invariant(self);
        }
        slot_map_is_empty(&self.map)
    }

    /// Applies the rows that a refresh loaded: each row becomes the entry of its
    /// slot, in order, then the slots before the plan's first slot leave, and the
    /// plan's range becomes the cached range. Returns the number of rows.
    pub fn apply_refresh(&mut self, plan: &RefreshPlan, rows: Vec<SlotLeaderRow>) -> (fetched: usize)
        ensures
            fetched == rows@.len(),
            final(self).entries() == evict_before(
                insert_rows(old(self).entries(), rows@),
                plan.from_slot,
            ),
            final(self).range() == Some((plan.from_slot, plan.to_slot)),
            final(self).config() == old(self).config(),
            final(self).endpoint() == old(self).endpoint(),
    {
        proof {
            use_type_invariant(&*self);
        }
        let fetched = rows.len();
        let mut map = slot_map_new();
        std::mem::swap(&mut map, &mut self.map);
        let ghost start = slot_map_contents(map);
        let ghost all = rows@;
        for row in it: rows.into_iter()
            invariant
                it.seq() == all,
                start.dom().finite(),
                slot_map_contents(map) == insert_rows(start, all.take(it.index() as int)),
        {
            let ghost i = it.index();
            assert(all.take(i + 1).drop_last() =~= all.take(i as int));
            let slot = row.slot;
            slot_map_insert(&mut map, slot, LeaderInfo { client_type: row.client_type, name: row.name });
        }
        assert(all.take(all.len() as int) =~= all);
        proof {
            lemma_insert_rows_finite(start, all);
            lemma_evict_before_finite(insert_rows(start, all), plan.from_slot);
        }
        slot_map_retain_from(&mut map, plan.from_slot);
        self.map = map;
        self.last_range = Some((plan.from_slot, plan.to_slot));
        fetched
    }
}

impl SlotOracle for SlotLeaderCache {
    /// The cached leader information of `slot`.
    fn leader_at(&self, slot: u64) -> (r: Option<LeaderInfo>)
        ensures
            r == self.entries().get(slot),
    {
        slot_map_get(&self.map, slot)
    }
}

} // verus!
