//! sol-slot-leader
//!
//! Takes the current slot from the RPC node, loads the `slot -> client_type`
//! mapping of the range `[current_slot, max_slot_in_db]` from the database,
//! and keeps it in an in-memory map for synchronous lookups.
//!
//! Public interface:
//!   - [`cache::SlotLeaderCache`] — the in-memory cache and its refresh step
//!   - [`LeaderInfo`]             — the leader information of one slot
//!   - [`SlotOracle`]             — the lookup trait offered to transaction dispatchers
//!   - [`NoopOracle`]             — the fallback when no database is configured

use vstd::prelude::*;

pub mod cache;
pub mod db;
pub mod refresh;
pub mod slot_map;
pub mod text;
pub mod types;

pub use db::DbConfig;
pub use types::ClientType;

use crate::text::{contains_ignore_ascii_case, lower, occurs_in};
use crate::types::is_harmonic_client;

verus! {

broadcast use vstd::string::group_string_axioms;

/// Leader metadata of one slot.
#[derive(Debug, Clone)]
pub struct LeaderInfo {
    pub client_type: ClientType,
    /// Node name (such as "Harmonic-SG"); when `client_type` is `Other` it still
    /// tells whether the node is a Harmonic node.
    pub name: Option<String>,
}

/// Whether a node name says "harmonic", in any ASCII case.
pub open spec fn name_says_harmonic(name: Option<String>) -> bool {
    match name {
        Some(n) => occurs_in("harmonic"@, lower(n@)),
        None => false,
    }
}

impl LeaderInfo {
    /// Whether transactions for this leader go the Harmonic way: the client
    /// type is a Harmonic variant, or the name contains "harmonic" in any ASCII case.
    pub fn is_harmonic(&self) -> (r: bool)
        ensures
            r == (is_harmonic_client(self.client_type@) || name_says_harmonic(self.name)),
    {
        if self.client_type.is_harmonic() {
            return true;
        }
        match &self.name {
            Some(n) => {
                let found = contains_ignore_ascii_case(n.as_str(), "harmonic");
                proof {
                    reveal_strlit("harmonic");
                    assert(lower("harmonic"@) =~= "harmonic"@);
                }
                found
            },
            None => false,
        }
    }

    /// Whether this leader runs the Jito client.
    pub fn is_jito(&self) -> (r: bool)
        ensures
            r == (self.client_type@ is JitoLabs),
    {
        matches!(&self.client_type, ClientType::JitoLabs)
    }
}

/// The slot-leader lookup that transaction dispatchers use: synchronous, from
/// memory, without I/O.
pub trait SlotOracle: Send + Sync {
    /// The leader information of `slot`, if it is known.
    fn leader_at(&self, slot: u64) -> Option<LeaderInfo>;
}

/// The fallback oracle when there is no database: it never knows a leader,
/// so a dispatcher falls back to its default sending strategy.
#[derive(Clone)]
pub struct NoopOracle;

impl SlotOracle for NoopOracle {
    fn leader_at(&self, slot: u64) -> (r: Option<LeaderInfo>)
        ensures
            r is None,
    {
        None
    }
}

} // verus!
