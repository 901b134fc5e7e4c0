//! The counter's storage contract: one row with `id = 1` holding the count as
//! decimal text, read at start-up and upserted on every change.
use vstd::prelude::*;
use crate::decimal::{decimal_of, decimal_text, is_u128_text, lemma_decimal_round_trip, parse_u128, u128_text_value};

verus! {

/// The id of the single counter row.
pub const COUNTER_ROW_ID: i64 = 1;

/// A column value as the store hands it back. Floating-point values are
/// carried without their payload: the counter never reads one.
pub enum StoredValue {
    Null,
    Integer(i64),
    Real,
    Text(String),
    Blob(Vec<u8>),
}

/// Why a stored counter could not be read.
#[derive(Debug, PartialEq, Eq, Structural)]
pub enum ReadError {
    /// The `count` column did not hold text.
    NotText,
    /// The text was not the decimal spelling of a `u128`.
    InvalidNumber,
}

/// The counter table, keyed by row id, each row holding its `count` text.
pub type CounterTable = Map<int, Seq<char>>;

/// What reading a `count` text gives.
pub open spec fn decode_text(s: Seq<char>) -> Result<u128, ReadError> {
    if is_u128_text(s) {
        Ok(u128_text_value(s) as u128)
    } else {
        Err(ReadError::InvalidNumber)
    }
}

/// What reading one `count` column gives.
pub open spec fn decode_spec(v: StoredValue) -> Result<u128, ReadError> {
    match v {
        StoredValue::Text(s) => decode_text(s@),
        _ => Err(ReadError::NotText),
    }
}

/// What reading the counter row gives, given the row's `count` column if there
/// is a row.
pub open spec fn read_spec(row: Option<StoredValue>) -> Result<Option<u128>, ReadError> {
    match row {
        None => Ok(None),
        Some(v) => match decode_spec(v) {
            Ok(n) => Ok(Some(n)),
            Err(e) => Err(e),
        },
    }
}

/// Reading the counter row of a table: what `read_counter` gives for the
/// row's text, or for no row.
pub open spec fn read_table(t: CounterTable) -> Result<Option<u128>, ReadError> {
    if t.contains_key(COUNTER_ROW_ID as int) {
        match decode_text(t[COUNTER_ROW_ID as int]) {
            Ok(n) => Ok(Some(n)),
            Err(e) => Err(e),
        }
    } else {
        Ok(None)
    }
}

/// Number of rows that `UPDATE counter SET count = ? WHERE id = 1` changes.
pub open spec fn rows_updated(t: CounterTable) -> nat {
    if t.contains_key(COUNTER_ROW_ID as int) { 1 } else { 0 }
}

/// The table after `UPDATE counter SET count = text WHERE id = 1`.
pub open spec fn sql_update(t: CounterTable, text: Seq<char>) -> CounterTable {
    if t.contains_key(COUNTER_ROW_ID as int) {
        t.insert(COUNTER_ROW_ID as int, text)
    } else {
        t
    }
}

/// The table after `INSERT INTO counter (id, count) VALUES (1, text)` on a
/// table without that row.
pub open spec fn sql_insert(t: CounterTable, text: Seq<char>) -> CounterTable {
    t.insert(COUNTER_ROW_ID as int, text)
}

/// The table after one upsert of `text`: the update, then the insert when the
/// update changed no row.
pub open spec fn upsert(t: CounterTable, text: Seq<char>) -> CounterTable {
    let updated = sql_update(t, text);
    if rows_updated(t) == 0 {
        sql_insert(updated, text)
    } else {
        updated
    }
}

/// The table after the writer has taken `values` in order; `succeeded[i]`
/// tells whether the write of `values[i]` reached the store.
pub open spec fn drain(t: CounterTable, values: Seq<u128>, succeeded: Seq<bool>) -> CounterTable
    decreases values.len(),
{
    if values.len() == 0 || succeeded.len() < values.len() {
        t
    } else {
        let before = drain(t, values.drop_last(), succeeded.subrange(0, values.len() - 1));
        if succeeded[values.len() - 1] {
            upsert(before, decimal_of(values.last() as nat))
        } else {
            before
        }
    }
}

/// Decodes one `count` column.
pub fn decode_count(v: &StoredValue) -> (r: Result<u128, ReadError>)
    ensures
        r == decode_spec(*v),
{
    match v {
        StoredValue::Text(s) => match parse_u128(s.as_str()) {
            Some(n) => Ok(n),
            None => Err(ReadError::InvalidNumber),
        },
        _ => Err(ReadError::NotText),
    }
}

/// Interprets the result of `SELECT count FROM counter WHERE id = 1`: no row
/// means no counter was stored yet.
pub fn read_counter(row: Option<&StoredValue>) -> (r: Result<Option<u128>, ReadError>)
    ensures
        r == read_spec(match row { Some(v) => Some(*v), None => None }),
{
    match row {
        None => Ok(None),
        Some(v) => match decode_count(v) {
            Ok(n) => Ok(Some(n)),
            Err(e) => Err(e),
        },
    }
}

/// The text that the writer stores for `counter`.
pub fn counter_text(counter: u128) -> (r: String)
    ensures
        r@ == decimal_of(counter as nat),
{
    decimal_text(counter)
}

/// Upserting the same text twice leaves the table as one upsert does: exactly
/// one counter row, holding that text, and no other row touched.
pub proof fn lemma_upsert_idempotent(t: CounterTable, text: Seq<char>)
    ensures
        upsert(upsert(t, text), text) == upsert(t, text),
        upsert(t, text).contains_key(COUNTER_ROW_ID as int),
        upsert(t, text)[COUNTER_ROW_ID as int] == text,
        upsert(t, text).dom() == t.dom().insert(COUNTER_ROW_ID as int),
        forall|k: int| k != COUNTER_ROW_ID && t.contains_key(k) ==> upsert(t, text)[k] == t[k],
{
    let once = upsert(t, text);
    assert(upsert(once, text) =~= once);
    assert(once.dom() =~= t.dom().insert(COUNTER_ROW_ID as int));
}

/// Writing a value and reading it back gives the value itself, whatever the
/// table held before.
pub proof fn lemma_write_read_round_trip(t: CounterTable, v: u128)
    ensures
        read_table(upsert(t, decimal_of(v as nat))) == Ok::<Option<u128>, ReadError>(Some(v)),
{
    lemma_decimal_round_trip(v);
}

/// After the writer drains `values`, the stored counter is the last value
/// whenever its write succeeded, whatever became of the earlier writes.
pub proof fn lemma_drain_last_wins(t: CounterTable, values: Seq<u128>, succeeded: Seq<bool>)
    requires
        values.len() > 0,
        succeeded.len() == values.len(),
        succeeded.last(),
    ensures
        drain(t, values, succeeded)[COUNTER_ROW_ID as int] == decimal_of(values.last() as nat),
        read_table(drain(t, values, succeeded)) == Ok::<Option<u128>, ReadError>(Some(values.last())),
{
    let before = drain(t, values.drop_last(), succeeded.subrange(0, values.len() - 1));
    lemma_upsert_idempotent(before, decimal_of(values.last() as nat));
    lemma_write_read_round_trip(before, values.last());
}

} // verus!
