//! Coordinator state for the wake schedule: parses caller-supplied ISO-8601
//! text into a [`WakeTime`] and keeps at most one scheduled time outstanding,
//! so that exactly the time that was registered can later be cancelled.

use vstd::prelude::*;
use vstd::string::StringExecFns;
use crate::pmset::{
    CommandExecutor, PmsetError, WakeTime, cancel_invocation, cancel_wake_with, days_in_month,
    schedule_invocation, schedule_wake_with,
};
use chrono::Datelike;
use chrono::Timelike;

verus! {

/// Errors surfaced by the schedule operation.
#[derive(Debug)]
pub enum AlarmError {
    /// The timestamp text was rejected; carries a description of why.
    Parse(String),
    /// The power-management tool could not be driven.
    Command(PmsetError),
}

/// Whether `s` is a well-formed RFC 3339 timestamp.  Names what
/// `chrono::DateTime::parse_from_rfc3339` accepts, which depends on the text
/// alone.
pub uninterp spec fn rfc3339_ok(s: Seq<char>) -> bool;

/// Relies on chrono: `DateTime::parse_from_rfc3339` succeeds exactly on
/// RFC 3339 texts; `with_timezone(&Local)` renders the instant in the
/// machine's local time zone (so the fields below depend on that zone); the
/// `Datelike` and `Timelike` accessors return month 1..=12, day 1..=31,
/// hour 0..=23, minute 0..=59 and second 0..=59, and a parsed date is a real
/// calendar date, so its day fits its month.  The year is returned as given,
/// and may fall outside any range this crate can format.
#[verifier::external_body]
fn parse_rfc3339_local(s: &str) -> (r: Result<(i64, u32, u32, u32, u32, u32), String>)
    ensures
        r is Ok <==> rfc3339_ok(s@),
        r matches Ok(p) ==> 1 <= p.1 <= 12 && 1 <= p.2 <= days_in_month(p.0 as int, p.1 as int)
            && p.3 <= 23 && p.4 <= 59 && p.5 <= 59,
{
    match chrono::DateTime::parse_from_rfc3339(s) {
        Ok(dt) => {
            let l = dt.with_timezone(&chrono::Local);
            Ok((l.year() as i64, l.month(), l.day(), l.hour(), l.minute(), l.second()))
        },
        Err(e) => Err(e.to_string()),
    }
}

/// Parses caller-supplied ISO-8601 text into a local wake time.  Text that
/// is not RFC 3339 is rejected as a parse error; so is a timestamp whose
/// local rendering falls outside the four-digit-year range the
/// power-management tool's grammar can carry.
pub fn parse_wake_time(s: &str) -> (r: Result<WakeTime, AlarmError>)
    ensures
        r matches Ok(t) ==> rfc3339_ok(s@) && t.wf(),
        !rfc3339_ok(s@) ==> r matches Err(AlarmError::Parse(_)),
        r matches Err(e) ==> e is Parse,
{
    match parse_rfc3339_local(s) {
        Err(m) => Err(AlarmError::Parse(m)),
        Ok((year, month, day, hour, minute, second)) => {
            if year < 1 || year > 9999 {
                return Err(AlarmError::Parse(String::from_str("timestamp out of range")));
            }
            match WakeTime::new(year as u32, month, day, hour, minute, second) {
                Some(t) => Ok(t),
                None => Err(AlarmError::Parse(String::from_str("timestamp out of range"))),
            }
        },
    }
}

/// At most one scheduled wake time, recorded by a successful schedule and
/// cleared by a successful cancel.
pub struct ScheduledAlarm {
    pending: Option<WakeTime>,
}

impl ScheduledAlarm {
    /// Any recorded time is one this crate can format.
    pub closed spec fn inv(&self) -> bool {
        self.pending matches Some(t) ==> t.wf()
    }

    /// The currently recorded wake time, if any.
    pub closed spec fn pending_time(&self) -> Option<WakeTime> {
        self.pending
    }

    /// A fresh slot with nothing scheduled.
    pub fn new() -> (r: Self)
        ensures
            r.inv(),
            r.pending_time() is None,
    {
        ScheduledAlarm { pending: None }
    }

    /// The currently recorded wake time, if any.
    pub fn pending_wake(&self) -> (r: Option<WakeTime>)
        ensures
            r == self.pending_time(),
    {
        self.pending
    }

    /// Parses `iso_time`, registers a wake event for it through `executor`,
    /// and records the time so that it can be cancelled later.  On any
    /// failure the recorded time is unchanged, and the executor is driven
    /// only when parsing succeeded.
    pub fn schedule<E: CommandExecutor>(&mut self, executor: &mut E, iso_time: &str) -> (r: Result<
        (),
        AlarmError,
    >)
        requires
            old(self).inv(),
        ensures
            final(self).inv(),
            !rfc3339_ok(iso_time@) ==> r matches Err(AlarmError::Parse(_)),
            r matches Err(AlarmError::Parse(_)) ==> final(executor).history()
                == old(executor).history(),
            r is Err ==> final(self).pending_time() == old(self).pending_time(),
            r is Ok ==> rfc3339_ok(iso_time@) && (final(self).pending_time() matches Some(t)
                && t.wf() && final(executor).history() == old(executor).history().push(
                schedule_invocation(t),
            )),
            r matches Err(AlarmError::Command(_)) ==> rfc3339_ok(iso_time@) && final(
                executor).history() == old(executor).history(),
    {
        let t = match parse_wake_time(iso_time) {
            Ok(t) => t,
            Err(e) => {
                return Err(e);
            },
        };
        match schedule_wake_with(executor, &t) {
            Ok(()) => {
                self.pending = Some(t);
                Ok(())
            },
            Err(e) => Err(AlarmError::Command(e)),
        }
    }

    /// Records `t` as the scheduled time after its wake event was
    /// registered, replacing any previous record.  Split out from `schedule`
    /// so a caller can register first, without a lock, and then record under
    /// a lock held only for this field write.
    pub fn record(&mut self, t: &WakeTime)
        requires
            t.wf(),
        ensures
            final(self).inv(),
            final(self).pending_time() == Some(*t),
    {
        self.pending = Some(*t);
    }

    /// Clears the recorded time, for a caller that has already issued the
    /// cancellation for it and holds the lock on this slot only for this
    /// field write.
    pub fn clear_pending(&mut self)
        ensures
            final(self).inv(),
            final(self).pending_time() is None,
    {
        self.pending = None;
    }

    /// Cancels the recorded wake event, if there is one, by issuing the
    /// exact-time cancellation for it; with nothing recorded this is a no-op
    /// success and the executor is never driven.  (The alternative policy,
    /// clearing every outstanding event unconditionally, is deliberately not
    /// offered: this slot cancels only what it scheduled.)
    pub fn cancel<E: CommandExecutor>(&mut self, executor: &mut E) -> (r: Result<(), PmsetError>)
        requires
            old(self).inv(),
        ensures
            final(self).inv(),
            old(self).pending_time() is None ==> r is Ok && final(executor).history()
                == old(executor).history() && final(self).pending_time() is None,
            old(self).pending_time() matches Some(t) ==> {
                &&& r is Ok ==> final(self).pending_time() is None && final(executor).history()
                    == old(executor).history().push(cancel_invocation(t))
                &&& r is Err ==> final(self).pending_time() == old(self).pending_time()
                    && final(executor).history() == old(executor).history()
            },
    {
        match self.pending {
            None => Ok(()),
            Some(t) => match cancel_wake_with(executor, &t) {
                Ok(()) => {
                    self.pending = None;
                    Ok(())
                },
                Err(e) => Err(e),
            },
        }
    }
}

} // verus!
