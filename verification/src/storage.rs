//! Event-store rules that hold independently of the SQLite connection.

use vstd::prelude::*;
use vstd::std_specs::iter::IteratorSpec;

use crate::events::{EventId, EventRecord, validation_error, validation_text};

verus! {

/// Event-store failure.
#[derive(Debug)]
pub enum StorageError {
    /// SQLite failure.
    Sqlite(rusqlite::Error),
    /// JSON failure.
    Json(serde_json::Error),
    /// Event failed validation.
    InvalidEvent(String),
    /// `u64` event ID cannot fit SQLite INTEGER.
    EventIdOutOfRange(u64),
    /// Invalid count returned by SQLite.
    InvalidCount(i64),
    /// WAL was unavailable.
    JournalMode(String),
    /// Integrity check failed.
    Integrity(String),
}

/// SQLite's error, carried through unchanged.
#[verifier::external_type_specification]
#[verifier::external_body]
pub struct ExSqliteError(rusqlite::Error);

/// The JSON codec's error, carried through unchanged.
#[verifier::external_type_specification]
#[verifier::external_body]
pub struct ExJsonError(serde_json::Error);

/// Converts an event identity into a SQLite INTEGER key.
///
/// Fails with [`StorageError::EventIdOutOfRange`] when the identity exceeds
/// `i64::MAX`.
pub fn to_sql_id(id: EventId) -> (key: Result<i64, StorageError>)
    ensures
        match key {
            Ok(k) => id@ <= i64::MAX && k == id@,
            Err(StorageError::EventIdOutOfRange(raw)) => id@ > i64::MAX && raw == id@,
            Err(_) => false,
        },
{
    let raw = id.get();
    if raw <= i64::MAX as u64 {
        Ok(raw as i64)
    } else {
        Err(StorageError::EventIdOutOfRange(raw))
    }
}

/// Converts a SQLite `COUNT(*)` into an event count.
///
/// Fails with [`StorageError::InvalidCount`] for a negative count.
pub fn count_from_sql(count: i64) -> (events: Result<u64, StorageError>)
    ensures
        match events {
            Ok(n) => count >= 0 && n == count,
            Err(StorageError::InvalidCount(c)) => count < 0 && c == count,
            Err(_) => false,
        },
{
    if count >= 0 {
        Ok(count as u64)
    } else {
        Err(StorageError::InvalidCount(count))
    }
}

/// Accepts SQLite's `PRAGMA integrity_check` verdict only when it is `ok`.
pub fn integrity_verdict(verdict: String) -> (result: Result<(), StorageError>)
    ensures
        match result {
            Ok(()) => verdict@ == "ok"@,
            Err(StorageError::Integrity(v)) => verdict@ != "ok"@ && v@ == verdict@,
            Err(_) => false,
        },
{
    let expected = "ok".to_owned();
    if verdict == expected {
        Ok(())
    } else {
        Err(StorageError::Integrity(verdict))
    }
}

/// ASCII lower-casing of one character.
pub open spec fn ascii_lower(c: char) -> char {
    if 'A' <= c && c <= 'Z' {
        ((c as u32) + 32) as char
    } else {
        c
    }
}

/// Whether two texts are equal ignoring ASCII case.
pub open spec fn eq_ignore_ascii_case(a: Seq<char>, b: Seq<char>) -> bool {
    a.len() == b.len() && forall|i: int| 0 <= i < a.len() ==> ascii_lower(#[trigger] a[i]) == ascii_lower(b[i])
}

/// The code point of `c` lower-cased in the ASCII range.
fn ascii_lower_code(c: char) -> (code: u32)
    ensures
        code == ascii_lower(c) as u32,
{
    let u: u32 = c as u32;
    if 0x41 <= u && u <= 0x5A {
        u + 32
    } else {
        u
    }
}

/// Whether two texts are equal ignoring ASCII case, as
/// `str::eq_ignore_ascii_case` reports it.
fn text_eq_ignore_ascii_case(a: &str, b: &str) -> (equal: bool)
    ensures
        equal == eq_ignore_ascii_case(a@, b@),
{
    broadcast use vstd::string::group_string_axioms;

    let mut left = a.chars();
    let mut right = b.chars();
    let ghost mut seen: int = 0;
    loop
        invariant
            0 <= seen <= a@.len(),
            seen <= b@.len(),
            left.remaining() == a@.subrange(seen, a@.len() as int),
            right.remaining() == b@.subrange(seen, b@.len() as int),
            left.obeys_prophetic_iter_laws(),
            right.obeys_prophetic_iter_laws(),
            forall|i: int| 0 <= i < seen ==> ascii_lower(#[trigger] a@[i]) == ascii_lower(b@[i]),
        decreases a@.len() - seen,
    {
        let x = left.next();
        let y = right.next();
        match (x, y) {
            (Some(p), Some(q)) => {
                assert(p == a@[seen] && q == b@[seen]);
                if ascii_lower_code(p) != ascii_lower_code(q) {
                    return false;
                }
                proof {
                    seen = seen + 1;
                }
            },
            (None, None) => {
                assert(seen == a@.len() && seen == b@.len());
                return true;
            },
            (Some(_), None) => {
                assert(seen == b@.len() && seen < a@.len());
                return false;
            },
            (None, Some(_)) => {
                assert(seen == a@.len() && seen < b@.len());
                return false;
            },
        }
    }
}

/// Accepts the journal mode SQLite reports only when it is WAL.
pub fn require_wal(mode: String) -> (result: Result<(), StorageError>)
    ensures
        match result {
            Ok(()) => eq_ignore_ascii_case(mode@, "wal"@),
            Err(StorageError::JournalMode(m)) => !eq_ignore_ascii_case(mode@, "wal"@) && m@
                == mode@,
            Err(_) => false,
        },
{
    if text_eq_ignore_ascii_case(mode.as_str(), "wal") {
        Ok(())
    } else {
        Err(StorageError::JournalMode(mode))
    }
}

/// The checks the store makes on one event before writing it: the event
/// validates, and its identity fits a SQLite key, which is returned.
pub fn storable_event_key(event: &EventRecord) -> (key: Result<i64, StorageError>)
    ensures
        match key {
            Ok(k) => validation_error(event@) is None && event@.event_id@ <= i64::MAX && k
                == event@.event_id@,
            Err(StorageError::InvalidEvent(message)) => validation_error(event@) is Some
                && message@ == validation_text(validation_error(event@)->Some_0),
            Err(StorageError::EventIdOutOfRange(raw)) => validation_error(event@) is None
                && event@.event_id@ > i64::MAX && raw == event@.event_id@,
            Err(_) => false,
        },
{
    match event.validate() {
        Ok(()) => {},
        Err(error) => return Err(StorageError::InvalidEvent(error.to_string())),
    }
    to_sql_id(event.event_id())
}

} // verus!
