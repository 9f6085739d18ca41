# sol-slot-leader

A cache of Solana slot leaders: which validator client (Agave, Firedancer,
Jito, Harmonic, ...) produces each upcoming slot, loaded from a `slot_leader`
database table and looked up synchronously by transaction dispatchers.

Layout:

- `src/` — the verified library (Verus):
  - `text.rs`: ASCII case folding, Unicode white-space trimming, case-insensitive matching;
  - `types.rs`: `ClientType`, how a database text names one, how it is displayed;
  - `db.rs`: `DbConfig`, `SlotLeaderRow`, decoding of raw result rows;
  - `refresh.rs`: the plan of one refresh (`plan_refresh`), the refresh machine
    (`begin_refresh`, `refresh_step`) that orders its outside calls, and the timer period;
  - `slot_map.rs`: the `dashmap::DashMap` that holds the entries, behind specified wrappers;
  - `cache.rs`: `SlotLeaderCache`, its refresh step (`apply_refresh`) and lookups;
  - `lib.rs`: `LeaderInfo`, the `SlotOracle` trait, `NoopOracle`.
- `app/` — the I/O around it: the database queries (sea-orm), the RPC call for the
  current slot, the shared cache with its periodic background refresh (tokio), and
  `AnyOracle`.
- `tests/` — tests of the library.
