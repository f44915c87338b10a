//! Per-customer session-credit ledger.
//!
//! Each customer carries three non-negative counters, stored remotely as
//! string-encoded custom attributes: the current balance (`sessions`), the
//! lifetime credits (`sessions_credited`) and the lifetime debits
//! (`sessions_debited`). The ledger never goes negative: a `Reset` delta
//! always yields exactly zero, and a `Decrement` clamps at the floor.
//!
//! An update reads the three counters, computes the new values locally,
//! and writes each back through its own remote call. The writes are not
//! one transaction: concurrent updates to the same customer can lose
//! changes, last-write-wins per attribute. The remote API offers no
//! versioned update as used, so a deployment that needs stronger
//! consistency must serialize ledger writes per customer itself.

use vstd::prelude::*;
use crate::digits::{parse_u8_decimal, spec_parse_counter};

verus! {

/// The counter value a raw attribute reading decodes to: missing stays
/// missing, and a value that is not a string-encoded counter reads as
/// missing too, so a corrupt attribute triggers re-initialization rather
/// than a fabricated balance.
pub open spec fn spec_decode_reading(reading: Option<String>) -> Option<u8> {
    match reading {
        None => None,
        Some(s) => spec_parse_counter(s@),
    }
}

/// Names one of the three per-customer session counters.
#[derive(Clone, Copy, Debug, PartialEq, Eq, Structural)]
pub enum SessionAttribute {
    Sessions,
    SessionsCredited,
    SessionsDebited,
}

/// The remote custom-attribute key under which a counter is stored.
pub open spec fn spec_attribute_key(a: SessionAttribute) -> Seq<char> {
    match a {
        SessionAttribute::Sessions => "sessions"@,
        SessionAttribute::SessionsCredited => "sessions_credited"@,
        SessionAttribute::SessionsDebited => "sessions_debited"@,
    }
}

impl SessionAttribute {
    /// The remote custom-attribute key for this counter.
    pub fn key(&self) -> (r: String)
        ensures
            r@ == spec_attribute_key(*self),
    {
        match self {
            SessionAttribute::Sessions => "sessions".to_owned(),
            SessionAttribute::SessionsCredited => "sessions_credited".to_owned(),
            SessionAttribute::SessionsDebited => "sessions_debited".to_owned(),
        }
    }
}

/// A requested change to one counter.
#[derive(Clone, Copy, Debug, PartialEq, Eq, Structural)]
pub enum DeltaSessions {
    Reset,
    Increment(u8),
    Decrement(u8),
}

/// The counter value before a delta, with a missing (never-initialized)
/// counter reading as zero.
pub open spec fn spec_existing_or_zero(existing: Option<u8>) -> int {
    match existing {
        None => 0,
        Some(v) => v as int,
    }
}

/// The counter value after applying a delta.
///
/// `Reset` yields zero whatever the counter held. `Decrement` clamps at
/// zero. `Increment` adds and wraps into the counter's eight-bit range.
pub open spec fn spec_delta(existing: Option<u8>, op: DeltaSessions) -> int {
    let base = spec_existing_or_zero(existing);
    match op {
        DeltaSessions::Reset => 0,
        DeltaSessions::Increment(n) => (base + n) % 256,
        DeltaSessions::Decrement(n) => if base >= n { base - n } else { 0 },
    }
}

impl DeltaSessions {
    /// The new counter value after this delta, given the counter's current
    /// remote value (`None` when the counter was never initialized).
    pub fn delta(&self, existing: Option<u8>) -> (r: u8)
        ensures
            r as int == spec_delta(existing, *self),
    {
        match existing {
            None => match self {
                DeltaSessions::Reset => 0,
                _ => self.checked_delta(0),
            },
            Some(existing) => match self {
                DeltaSessions::Reset => 0,
                _ => self.checked_delta(existing),
            },
        }
    }

    fn checked_delta(&self, existing: u8) -> (r: u8)
        ensures
            r as int == spec_delta(Some(existing), *self),
    {
        match self {
            DeltaSessions::Reset => 0,
            DeltaSessions::Increment(delta) => {
                let sum: u16 = existing as u16 + *delta as u16;
                if sum >= 256 {
                    (sum - 256) as u8
                } else {
                    sum as u8
                }
            }
            DeltaSessions::Decrement(delta) => {
                if existing >= *delta {
                    existing - *delta
                } else {
                    0
                }
            }
        }
    }
}

/// No delta ever drives a counter out of its range: the ledger never
/// goes negative, whatever the counter held and whatever was asked.
pub proof fn lemma_delta_stays_in_range(existing: Option<u8>, op: DeltaSessions)
    ensures
        0 <= spec_delta(existing, op) <= 255,
{
}

/// A decremented counter never goes below zero, and lands exactly on
/// `max(0, existing - n)`.
pub proof fn lemma_decrement_clamps_at_zero(existing: u8, n: u8)
    ensures
        spec_delta(Some(existing), DeltaSessions::Decrement(n)) >= 0,
        spec_delta(Some(existing), DeltaSessions::Decrement(n)) == if existing >= n {
            existing - n
        } else {
            0
        },
{
}

/// A `Reset` delta yields exactly zero, whether or not the counter was
/// ever initialized.
pub proof fn lemma_reset_yields_zero(existing: Option<u8>)
    ensures
        spec_delta(existing, DeltaSessions::Reset) == 0,
{
}

/// One customer's ledger: the balance and the two lifetime counters.
#[derive(Clone, Debug)]
pub struct SessionsInfo {
    pub email: String,
    pub sessions: u8,
    pub sessions_credited: u8,
    pub sessions_debited: u8,
}

/// A requested change to all three counters at once. Counters that should
/// stay put carry an `Increment(0)`.
#[derive(Clone, Copy, Debug)]
pub struct SessionsInfoUpdate {
    pub sessions: DeltaSessions,
    pub sessions_credited: DeltaSessions,
    pub sessions_debited: DeltaSessions,
}

impl SessionsInfoUpdate {
    /// The update that re-initializes every counter to zero.
    pub fn reset_all() -> (r: SessionsInfoUpdate)
        ensures
            r.sessions is Reset,
            r.sessions_credited is Reset,
            r.sessions_debited is Reset,
    {
        SessionsInfoUpdate {
            sessions: DeltaSessions::Reset,
            sessions_credited: DeltaSessions::Reset,
            sessions_debited: DeltaSessions::Reset,
        }
    }

    /// The ledger after applying this update to each counter
    /// independently.
    pub fn apply(&self, info: &SessionsInfo) -> (r: SessionsInfo)
        ensures
            r.email == info.email,
            r.sessions as int == spec_delta(Some(info.sessions), self.sessions),
            r.sessions_credited as int == spec_delta(
                Some(info.sessions_credited),
                self.sessions_credited,
            ),
            r.sessions_debited as int == spec_delta(
                Some(info.sessions_debited),
                self.sessions_debited,
            ),
    {
        SessionsInfo {
            email: info.email.clone(),
            sessions: self.sessions.delta(Some(info.sessions)),
            sessions_credited: self.sessions_credited.delta(Some(info.sessions_credited)),
            sessions_debited: self.sessions_debited.delta(Some(info.sessions_debited)),
        }
    }
}

/// The remote state of the three counters as read back from the platform,
/// `None` where the attribute does not exist yet.
#[derive(Clone, Copy, Debug)]
pub struct LedgerSnapshot {
    pub sessions: Option<u8>,
    pub sessions_credited: Option<u8>,
    pub sessions_debited: Option<u8>,
}

impl LedgerSnapshot {
    /// The snapshot decoded from the three raw attribute readings, each
    /// `None` where the attribute does not exist remotely.
    pub fn from_readings(
        sessions: &Option<String>,
        sessions_credited: &Option<String>,
        sessions_debited: &Option<String>,
    ) -> (r: LedgerSnapshot)
        ensures
            r.sessions == spec_decode_reading(*sessions),
            r.sessions_credited == spec_decode_reading(*sessions_credited),
            r.sessions_debited == spec_decode_reading(*sessions_debited),
    {
        LedgerSnapshot {
            sessions: decode_reading(sessions),
            sessions_credited: decode_reading(sessions_credited),
            sessions_debited: decode_reading(sessions_debited),
        }
    }

    /// Whether every counter exists remotely. A partially initialized
    /// ledger is treated the same as an uninitialized one: the caller
    /// re-initializes all three counters via `Reset`.
    pub fn fully_initialized(&self) -> (r: bool)
        ensures
            r == (self.sessions is Some && self.sessions_credited is Some
                && self.sessions_debited is Some),
    {
        self.sessions.is_some() && self.sessions_credited.is_some()
            && self.sessions_debited.is_some()
    }

    /// The ledger read for a customer, once all three counters exist.
    pub fn to_sessions_info(&self, email: String) -> (r: SessionsInfo)
        requires
            self.sessions is Some,
            self.sessions_credited is Some,
            self.sessions_debited is Some,
        ensures
            r.email == email,
            r.sessions == self.sessions->0,
            r.sessions_credited == self.sessions_credited->0,
            r.sessions_debited == self.sessions_debited->0,
    {
        SessionsInfo {
            email,
            sessions: self.sessions.unwrap(),
            sessions_credited: self.sessions_credited.unwrap(),
            sessions_debited: self.sessions_debited.unwrap(),
        }
    }
}

fn decode_reading(reading: &Option<String>) -> (r: Option<u8>)
    ensures
        r == spec_decode_reading(*reading),
{
    match reading {
        None => None,
        Some(s) => parse_u8_decimal(s.as_str()),
    }
}

/// A customer's balance as reported to callers.
#[derive(Clone, Debug)]
pub struct UserSessions {
    pub email: Option<String>,
    pub sessions: Option<u8>,
}

/// What a ledger read calls for next.
#[derive(Clone, Debug)]
pub enum LedgerReadDecision {
    /// All three counters exist: this is the customer's ledger.
    Ready(SessionsInfo),
    /// At least one counter is missing: re-initialize all three to zero
    /// via `Reset`, after which the ledger reads all-zero.
    InitializeAllToZero,
}

/// Decides a lazy ledger read: a fully initialized ledger is returned as
/// read; a partially initialized one is treated the same as an
/// uninitialized one and re-initialized wholesale.
pub fn decide_ledger_read(email: String, snapshot: &LedgerSnapshot) -> (r: LedgerReadDecision)
    ensures
        snapshot.sessions is Some && snapshot.sessions_credited is Some
            && snapshot.sessions_debited is Some ==> (r matches LedgerReadDecision::Ready(info)
            && info.email == email && info.sessions == snapshot.sessions->0
            && info.sessions_credited == snapshot.sessions_credited->0
            && info.sessions_debited == snapshot.sessions_debited->0),
        !(snapshot.sessions is Some && snapshot.sessions_credited is Some
            && snapshot.sessions_debited is Some) ==> r is InitializeAllToZero,
{
    if snapshot.fully_initialized() {
        LedgerReadDecision::Ready(snapshot.to_sessions_info(email))
    } else {
        LedgerReadDecision::InitializeAllToZero
    }
}

} // verus!
