use vstd::prelude::*;
use vstd::string::StringExecFns;

verus! {

/// The key of the rate-gate record of a chat.
pub open spec fn retry_key_spec(chat_id: Seq<char>) -> Seq<char> {
    "retry-at:"@ + chat_id
}

/// Names the key-value record that holds a chat's earliest next send time.
pub fn retry_key(chat_id: &str) -> (r: String)
    ensures
        r@ == retry_key_spec(chat_id@),
{
    String::from_str("retry-at:").concat(chat_id)
}

/// Relies on chrono's `Utc::now` and `DateTime::timestamp`: the current
/// time in whole seconds since the Unix epoch. Nothing is promised of the
/// value.
#[verifier::external_body]
fn unix_now() -> (r: i64) {
    chrono::Utc::now().timestamp()
}

/// A rate-gate record to write: the chat's key, the earliest time at which
/// the next request may be sent, and how many seconds the record lives.
#[derive(Clone, Debug, PartialEq, Eq)]
pub struct GateRecord {
    pub key: String,
    pub at: i64,
    pub ttl_seconds: u64,
}

/// Seconds from `now` until `at`, or zero when `at` is not in the future.
pub open spec fn remaining_seconds(at: i64, now: i64) -> int {
    if at > now {
        at - now
    } else {
        0
    }
}

/// The record that tells later requests to `chat_id` to wait until `at`,
/// as of time `now`. Its lifetime is the time left until `at`; a time that
/// has already passed gives a record that expires at once.
pub fn needs_more_time_at(chat_id: &str, at: i64, now: i64) -> (r: GateRecord)
    ensures
        r.key@ == retry_key_spec(chat_id@),
        r.at == at,
        r.ttl_seconds == remaining_seconds(at, now),
{
    let ttl_seconds: u64 = if at > now {
        (at as i128 - now as i128) as u64
    } else {
        0
    };
    GateRecord { key: retry_key(chat_id), at, ttl_seconds }
}

/// The record that tells later requests to `chat_id` to wait until `at`,
/// with its lifetime counted from the current time.
pub fn needs_more_time(chat_id: &str, at: i64) -> (r: GateRecord)
    ensures
        r.key@ == retry_key_spec(chat_id@),
        r.at == at,
        exists|now: i64| r.ttl_seconds == remaining_seconds(at, now),
{
    needs_more_time_at(chat_id, at, unix_now())
}

/// What a chat's rate limit record says at time `now`: the
/// stored time when it is still in the future, nothing otherwise.
pub open spec fn gate_spec(stored: Option<i64>, now: i64) -> Option<i64> {
    match stored {
        Some(t) => if t > now {
            Some(t)
        } else {
            None
        },
        None => None,
    }
}

/// Reads a chat's rate limit record at time `now`. A returned time always lies after `now`;
/// nothing is returned when no time was stored or the stored time is not
/// after `now`.
pub fn check_more_time_at(stored: Option<i64>, now: i64) -> (r: Option<i64>)
    ensures
        r == gate_spec(stored, now),
        r matches Some(t) ==> t > now,
        r is None <==> (stored is None || stored->0 <= now),
{
    match stored {
        Some(t) => if t > now {
            Some(t)
        } else {
            None
        },
        None => None,
    }
}

/// A time that the record gives is always later than the time at which it
/// was read, and the record gives none exactly when no time is stored or
/// the stored time is not later.
pub proof fn lemma_gate_monotone(stored: Option<i64>, now: i64)
    ensures
        gate_spec(stored, now) matches Some(t) ==> t > now && stored == Some(t),
        gate_spec(stored, now) is None <==> (stored is None || stored->0 <= now),
{
}

/// Reads a chat's rate limit record at the current time.
pub fn check_more_time(stored: Option<i64>) -> (r: Option<i64>)
    ensures
        exists|now: i64| r == gate_spec(stored, now),
        r matches Some(t) ==> stored == Some(t),
{
    check_more_time_at(stored, unix_now())
}

/// The time at which a request that was refused with `retry_after`
/// seconds may be repeated, counted from `now`; it saturates at the
/// largest time.
pub open spec fn retry_at_spec(now: i64, retry_after: i32) -> i64 {
    if now + retry_after > i64::MAX {
        i64::MAX
    } else if now + retry_after < i64::MIN {
        i64::MIN
    } else {
        (now + retry_after) as i64
    }
}

/// Computes when a rate-limited request may be repeated.
pub fn retry_at(now: i64, retry_after: i32) -> (r: i64)
    ensures
        r == retry_at_spec(now, retry_after),
{
    let sum: i128 = now as i128 + retry_after as i128;
    if sum > i64::MAX as i128 {
        i64::MAX
    } else if sum < i64::MIN as i128 {
        i64::MIN
    } else {
        sum as i64
    }
}

} // verus!
