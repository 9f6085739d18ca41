//! Database access values: the connection configuration, the rows of the
//! `slot_leader` table, and how their raw column values are decoded.

use vstd::prelude::*;
use vstd::string::StringExecFns;

use crate::types::{nullable_text, parse_nullable_client_type, ClientType, ClientTypeView};

verus! {

/// Database connection configuration.
#[derive(Debug, Clone)]
pub struct DbConfig {
    pub url: String,
}

impl DbConfig {
    pub fn new(url: &str) -> (r: DbConfig)
        ensures
            r.url@ == url@,
    {
        DbConfig { url: String::from_str(url) }
    }
}

/// A row of the `slot_leader` table, reduced to the columns that decisions need.
#[derive(Debug, Clone)]
pub struct SlotLeaderRow {
    pub slot: u64,
    pub client_type: ClientType,
    pub name: Option<String>,
}

/// The mathematical value of a `SlotLeaderRow`.
pub struct SlotLeaderRowView {
    pub slot: u64,
    pub client_type: ClientTypeView,
    pub name: Option<String>,
}

impl View for SlotLeaderRow {
    type V = SlotLeaderRowView;

    open spec fn view(&self) -> SlotLeaderRowView {
        SlotLeaderRowView { slot: self.slot, client_type: self.client_type@, name: self.name }
    }
}

/// The columns `slot`, `client_type` and `name` of one result row, each as the
/// database driver decoded it: `None` where the column was NULL or did not decode.
#[derive(Debug, Clone)]
pub struct RawSlotLeaderRow {
    pub slot: Option<i64>,
    pub client_type: Option<String>,
    pub name: Option<String>,
}

/// The row that a raw result row gives, if its slot decoded: the signed slot
/// is reinterpreted as unsigned, a NULL client type is `Other("")`.
pub open spec fn decode_row(raw: RawSlotLeaderRow) -> Option<SlotLeaderRowView> {
    match raw.slot {
        Some(s) => Some(
            SlotLeaderRowView {
                slot: s as u64,
                client_type: parse_nullable_client_type(nullable_text(raw.client_type)),
                name: raw.name,
            },
        ),
        None => None,
    }
}

/// The rows that a sequence of raw result rows gives, in order, without the
/// raw rows whose slot did not decode.
pub open spec fn decode_rows(raw: Seq<RawSlotLeaderRow>) -> Seq<SlotLeaderRowView>
    decreases raw.len(),
{
    if raw.len() == 0 {
        Seq::empty()
    } else {
        let init = decode_rows(raw.drop_last());
        match decode_row(raw.last()) {
            Some(r) => init.push(r),
            None => init,
        }
    }
}

/// The largest slot of the table, from the raw result of `SELECT MAX(slot)`:
/// `None` without a result row, or where the value is NULL or did not decode.
pub open spec fn decode_max_slot(raw: Option<Option<i64>>) -> Option<u64> {
    match raw {
        Some(Some(v)) => Some(v as u64),
        _ => None,
    }
}

/// Whether the slot column of a raw result row decoded.
pub open spec fn slot_decoded(r: RawSlotLeaderRow) -> bool {
    r.slot is Some
}

/// The raw rows whose slot decoded, in order.
pub open spec fn rows_with_slot(raw: Seq<RawSlotLeaderRow>) -> Seq<RawSlotLeaderRow> {
    raw.filter(|r: RawSlotLeaderRow| slot_decoded(r))
}

/// Every raw row whose slot decoded gives a row, whatever its client type and
/// name: the k-th decoded row comes from the k-th raw row with a slot, with that
/// slot reinterpreted as unsigned, its client type parsed (NULL is `Other("")`),
/// and its name.
pub proof fn law_decode_keeps_every_row_with_a_slot(raw: Seq<RawSlotLeaderRow>)
    ensures
        decode_rows(raw).len() == rows_with_slot(raw).len(),
        forall|k: int|
            #![trigger decode_rows(raw)[k]]
            0 <= k < decode_rows(raw).len() ==> {
                &&& decode_rows(raw)[k].slot == rows_with_slot(raw)[k].slot.unwrap() as u64
                &&& decode_rows(raw)[k].client_type == parse_nullable_client_type(
                    nullable_text(rows_with_slot(raw)[k].client_type),
                )
                &&& decode_rows(raw)[k].name == rows_with_slot(raw)[k].name
            },
    decreases raw.len(),
{
    reveal_with_fuel(Seq::filter, 1);
    if raw.len() > 0 {
        law_decode_keeps_every_row_with_a_slot(raw.drop_last());
        assert(rows_with_slot(raw) == if slot_decoded(raw.last()) {
            rows_with_slot(raw.drop_last()).push(raw.last())
        } else {
            rows_with_slot(raw.drop_last())
        });
    }
}

/// A non-NULL `MAX(slot)` value always decodes, reinterpreted as unsigned; the
/// result is `None` only without a result row or for NULL.
pub proof fn law_max_slot_decodes_every_value(raw: Option<Option<i64>>)
    ensures
        forall|v: i64| raw == Some(Some(v)) ==> decode_max_slot(raw) == Some(v as u64),
        decode_max_slot(raw) is None <==> (raw is None || raw == Some(None::<i64>)),
{
}

/// Decodes one raw result row.
pub fn decode_slot_leader_row(raw: RawSlotLeaderRow) -> (r: Option<SlotLeaderRow>)
    ensures
        match r {
            Some(row) => decode_row(raw) == Some(row@),
            None => decode_row(raw) is None,
        },
{
    match raw.slot {
        Some(s) => {
            let client_type = ClientType::parse_nullable(raw.client_type);
            Some(SlotLeaderRow { slot: s as u64, client_type, name: raw.name })
        },
        None => None,
    }
}

/// Decodes the result rows of a range query, keeping their order and leaving
/// out the rows whose slot did not decode.
pub fn decode_slot_leader_rows(raw: Vec<RawSlotLeaderRow>) -> (rows: Vec<SlotLeaderRow>)
    ensures
        rows@.map_values(|r: SlotLeaderRow| r@) == decode_rows(raw@),
{
    let mut rows: Vec<SlotLeaderRow> = Vec::new();
    let ghost all = raw@;
    for item in it: raw.into_iter()
        invariant
            it.seq() == all,
            rows@.map_values(|r: SlotLeaderRow| r@) == decode_rows(all.take(it.index() as int)),
    {
        let ghost i = it.index();
        assert(item == all[i as int]);
        assert(all.take(i + 1).drop_last() =~= all.take(i as int));
        let decoded = decode_slot_leader_row(item);
        match decoded {
            Some(row) => {
                rows.push(row);
            },
            None => {},
        }
        assert(rows@.map_values(|r: SlotLeaderRow| r@) =~= decode_rows(all.take(i + 1)));
    }
    assert(all.take(all.len() as int) =~= all);
    rows
}

/// Decodes the raw result of `SELECT MAX(slot)`.
pub fn decode_max_slot_value(raw: Option<Option<i64>>) -> (r: Option<u64>)
    ensures
        r == decode_max_slot(raw),
{
    match raw {
        Some(Some(v)) => Some(v as u64),
        _ => None,
    }
}

} // verus!
