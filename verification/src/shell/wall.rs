//! The wall clock: a time sync from the host, held against the monotonic tick.
//!
//! The only wall time the board has is what the bridge sends — `{"time":[epoch, tz_offset]}`.
//! This holds that reading and the tick it arrived at, so the clock keeps running between
//! syncs. Unsynced is a real state, not a zero: a stick that has never heard from a host shows
//! no time at all rather than midnight on the first of January.
use vstd::prelude::*;

verus! {

/// Milliseconds on the monotonic clock.
pub type Tick = u64;

/// Seconds in a day.
pub const DAY_S: i64 = 86400;

/// The host's wall time, anchored to the tick it arrived at.
#[derive(Clone, Copy, PartialEq, Eq, Debug)]
pub struct WallClock {
    synced: Option<(i64, u64)>,
}

impl View for WallClock {
    type V = Option<(i64, u64)>;

    /// The local (offset-applied) epoch seconds of the last sync, and the tick it landed on.
    closed spec fn view(&self) -> Option<(i64, u64)> {
        self.synced
    }
}

/// Local epoch seconds at `now`: the synced seconds plus the whole seconds elapsed since, with
/// a tick before the sync counting as no time.
pub open spec fn local_seconds(synced: Option<(i64, u64)>, now: u64) -> Option<int> {
    match synced {
        Some((epoch, at)) => Some(epoch + (if now >= at { (now - at) / 1000 } else { 0int })),
        None => None,
    }
}

/// Whether the local seconds at `now` fit an `i64`.
pub open spec fn fits(synced: Option<(i64, u64)>, now: u64) -> bool {
    local_seconds(synced, now) matches Some(s) ==> i64::MIN <= s <= i64::MAX
}

impl WallClock {
    /// An unsynced clock — no host has said what time it is.
    pub fn new() -> (r: Self)
        ensures
            r@ is None,
    {
        WallClock { synced: None }
    }

    /// Take a `{"time":[epoch, tz_offset_s]}` sync at `now`; the offset is folded into the
    /// epoch once, so everything downstream is local time.
    pub fn sync(&mut self, epoch: i64, tz_offset_s: i32, now: Tick)
        requires
            i64::MIN <= epoch + tz_offset_s <= i64::MAX,
        ensures
            final(self)@ == Some(((epoch + tz_offset_s) as i64, now)),
    {
        self.synced = Some((epoch + tz_offset_s as i64, now));
    }

    /// Whether a host has ever said what time it is.
    pub fn is_synced(&self) -> (r: bool)
        ensures
            r == self@ is Some,
    {
        self.synced.is_some()
    }

    /// Local epoch seconds at `now`, or `None` while unsynced.
    fn local(&self, now: Tick) -> (r: Option<i64>)
        requires
            fits(self@, now),
        ensures
            r matches Some(s) ==> local_seconds(self@, now) == Some(s as int),
            r is None ==> self@ is None,
    {
        match self.synced {
            Some((epoch, at)) => {
                let elapsed: u64 = now.saturating_sub(at) / 1000;
                Some(epoch + elapsed as i64)
            },
            None => None,
        }
    }

    /// The local hour and minute at `now`, or `None` while unsynced. The clock advances between
    /// syncs and wraps at midnight.
    pub fn hour_minute(&self, now: Tick) -> (r: Option<(u8, u8)>)
        requires
            fits(self@, now),
        ensures
            match local_seconds(self@, now) {
                Some(s) => r == Some((((s % 86400) / 3600) as u8, (((s % 86400) % 3600) / 60) as u8)),
                None => r is None,
            },
    {
        let local: i64 = match self.local(now) {
            Some(s) => s,
            None => return None,
        };
        let day: i64 = match local.checked_rem_euclid(DAY_S) {
            Some(d) => d,
            None => 0,
        };
        Some(((day / 3600) as u8, ((day % 3600) / 60) as u8))
    }

    /// The local hour and day of week at `now` — `0` is Sunday — or `None` while unsynced.
    /// Answered together, so a midnight rollover cannot pair an hour with the wrong day.
    pub fn hour_and_day(&self, now: Tick) -> (r: Option<(u8, u8)>)
        requires
            fits(self@, now),
        ensures
            match local_seconds(self@, now) {
                Some(s) => r == Some((((s % 86400) / 3600) as u8, ((s / 86400 + 4) % 7) as u8)),
                None => r is None,
            },
    {
        let local: i64 = match self.local(now) {
            Some(s) => s,
            None => return None,
        };
        let in_day: i64 = match local.checked_rem_euclid(DAY_S) {
            Some(d) => d,
            None => 0,
        };
        let days: i64 = match local.checked_div_euclid(DAY_S) {
            Some(d) => d,
            None => 0,
        };
        let weekday: i64 = match (days + 4).checked_rem_euclid(7) {
            Some(w) => w,
            None => 0,
        };
        Some(((in_day / 3600) as u8, weekday as u8))
    }
}

/// The clock reads a real time of day: an hour below 24, a minute below 60, a weekday below 7.
pub proof fn the_clock_reads_a_real_time(s: int)
    ensures
        0 <= (s % 86400) / 3600 < 24,
        0 <= ((s % 86400) % 3600) / 60 < 60,
        0 <= (s / 86400 + 4) % 7 < 7,
{
}

} // verus!
