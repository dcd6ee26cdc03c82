//! Instants and the minute arithmetic on them.

use vstd::prelude::*;

verus! {

/// Nanoseconds in one second.
pub const NANOS_PER_SECOND: i128 = 1_000_000_000;

/// Nanoseconds in one minute.
pub const NANOS_PER_MINUTE: i128 = 60_000_000_000;

/// A span of `nanos` nanoseconds in whole minutes, rounded toward zero.
pub open spec fn whole_minutes(nanos: int) -> int {
    if nanos >= 0 {
        nanos / 60_000_000_000
    } else {
        -((-nanos) / 60_000_000_000)
    }
}

/// A span of `nanos` nanoseconds in whole seconds, its direction left out.
pub open spec fn whole_seconds_apart(nanos: int) -> int {
    if nanos >= 0 {
        nanos / 1_000_000_000
    } else {
        (-nanos) / 1_000_000_000
    }
}

/// An instant: `secs` whole seconds since the Unix epoch (UTC) and `nanos`
/// nanoseconds more.
#[derive(Clone, Copy, Debug, PartialEq, Eq, Structural)]
pub struct Timestamp {
    pub secs: i64,
    pub nanos: u32,
}

impl View for Timestamp {
    type V = int;

    /// The nanoseconds from the epoch to the instant.
    open spec fn view(&self) -> int {
        self.secs * 1_000_000_000 + self.nanos
    }
}

/// An instant together with the offset from UTC, in seconds east, of the
/// clock it was read from.
#[derive(Clone, Copy, Debug, PartialEq, Eq, Structural)]
pub struct OffsetTimestamp {
    pub instant: Timestamp,
    pub offset_secs: i32,
}

/// Where an instant lies relative to a reading of the clock: `seconds`
/// after it when `later`, `seconds` before it otherwise.
#[derive(Clone, Copy, Debug, PartialEq, Eq, Structural)]
pub struct ClockOffset {
    pub later: bool,
    pub seconds: u64,
}

/// The instant `minutes` minutes after `t`.
pub open spec fn moved_by_minutes(t: Timestamp, minutes: int) -> Timestamp {
    Timestamp { secs: (t.secs + 60 * minutes) as i64, nanos: t.nanos }
}

/// Where `target` lies from `now`: on which side, and how many whole
/// seconds away.
pub open spec fn offset_from(now: Timestamp, target: Timestamp) -> ClockOffset {
    ClockOffset {
        later: target@ > now@,
        seconds: whole_seconds_apart(target@ - now@) as u64,
    }
}

impl Timestamp {
    /// The instant `secs` whole seconds after the epoch.
    pub fn from_secs(secs: i64) -> (t: Timestamp)
        ensures
            t == (Timestamp { secs, nanos: 0 }),
    {
        Timestamp { secs, nanos: 0 }
    }

    /// The instant `secs` seconds and `nanos` nanoseconds after the epoch.
    pub fn new(secs: i64, nanos: u32) -> (t: Timestamp)
        ensures
            t == (Timestamp { secs, nanos }),
    {
        Timestamp { secs, nanos }
    }

    /// The whole seconds since the epoch.
    pub fn secs(&self) -> (s: i64)
        ensures
            s == self.secs,
    {
        self.secs
    }

    /// The nanoseconds since the epoch.
    fn nanos_since_epoch(&self) -> (n: i128)
        ensures
            n == self@,
    {
        self.secs as i128 * NANOS_PER_SECOND + self.nanos as i128
    }

    /// Whether this instant is `other` or earlier.
    pub fn at_or_before(&self, other: Timestamp) -> (b: bool)
        ensures
            b == (self@ <= other@),
    {
        self.nanos_since_epoch() <= other.nanos_since_epoch()
    }

    /// This instant moved by `minutes` minutes.
    pub fn plus_minutes(&self, minutes: i64) -> (moved: Timestamp)
        requires
            i64::MIN <= self.secs + 60 * minutes <= i64::MAX,
        ensures
            moved == moved_by_minutes(*self, minutes as int),
            moved@ == self@ + 60_000_000_000 * minutes,
    {
        let wide: i128 = self.secs as i128 + 60i128 * (minutes as i128);
        Timestamp { secs: wide as i64, nanos: self.nanos }
    }

    /// How far `target` lies from `now`, in whole seconds, and on which side:
    /// what a timer needs to turn a wall-clock instant into a deadline on
    /// its own clock. `None` where the seconds do not fit.
    pub fn timestamp_to_instant(now: Timestamp, target: Timestamp) -> (offset: Option<ClockOffset>)
        ensures
            match offset {
                Some(o) => o == offset_from(now, target) && o.seconds == whole_seconds_apart(
                    target@ - now@,
                ),
                None => whole_seconds_apart(target@ - now@) > u64::MAX,
            },
    {
        let wide: i128 = target.nanos_since_epoch() - now.nanos_since_epoch();
        let later = wide > 0;
        let apart: i128 = if later {
            wide / NANOS_PER_SECOND
        } else {
            (-wide) / NANOS_PER_SECOND
        };
        if apart > u64::MAX as i128 {
            None
        } else {
            Some(ClockOffset { later, seconds: apart as u64 })
        }
    }

}

/// The minutes in `hours` hours and `minutes` minutes, as a duration is
/// entered on a clock face.
pub fn minutes_of(hours: u32, minutes: u32) -> (total: i64)
    ensures
        total == 60 * hours + minutes,
{
    60i64 * (hours as i64) + minutes as i64
}

} // verus!
