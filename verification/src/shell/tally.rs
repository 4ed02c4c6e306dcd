//! What the pet has been through: the running totals the stats page reads.
//!
//! The creature's own arithmetic — its mood, how fed it is, its energy and its level — is the
//! creature's to compute from these totals; this holds the totals and advances them on the
//! events that move them: an answered prompt, a nap, a token credit. Time is injected: a nap's
//! length is `now - started`, with both handed in.
use vstd::prelude::*;
use crate::display::view::StatsView;
use crate::shell::wall::Tick;

verus! {

/// Milliseconds in a minute, for the nap total.
pub const MINUTE_MS: u64 = 60_000;

/// `n + 1`, held at `u32::MAX`.
pub open spec fn bump(n: u32) -> u32 {
    if n < u32::MAX { (n + 1) as u32 } else { n }
}

/// `a + b`, held at the type's maximum.
pub open spec fn sat_add_u32(a: u32, b: u32) -> u32 {
    if a + b > u32::MAX { u32::MAX } else { (a + b) as u32 }
}

/// `a + b`, held at the type's maximum.
pub open spec fn sat_add_u64(a: u64, b: u64) -> u64 {
    if a + b > u64::MAX { u64::MAX } else { (a + b) as u64 }
}

/// The creature's readings of the totals, as it computes them.
#[derive(Clone, Copy, PartialEq, Eq, Debug, Structural)]
pub struct Readings {
    /// The mood tier.
    pub mood: u8,
    /// Fed progress.
    pub fed: u8,
    /// The energy tier.
    pub energy: u8,
    /// The level.
    pub level: u32,
}

/// The running totals behind the pet screen.
#[derive(Clone, Copy, PartialEq, Eq, Debug, Structural)]
pub struct Tally {
    /// Prompts approved.
    pub approvals: u32,
    /// Prompts denied.
    pub denials: u32,
    /// Naps taken.
    pub naps: u32,
    /// Whole milliseconds spent napping, across all of them.
    pub napped_ms: u64,
    /// Lifetime tokens credited.
    pub tokens: u32,
    /// Today's tokens, straight off the wire.
    pub tokens_today: u32,
    /// When the last nap ended.
    pub nap_end: Tick,
    /// When the current nap started, if one is running.
    pub nap_started: Option<Tick>,
}

/// Whole minutes napped, held at `u32::MAX`.
pub open spec fn nap_minutes_of(napped_ms: u64) -> u32 {
    if napped_ms / MINUTE_MS > u32::MAX { u32::MAX } else { (napped_ms / MINUTE_MS) as u32 }
}

impl Tally {
    /// A pet with no history: never asked anything, never napped, unfed.
    pub fn new() -> (r: Self)
        ensures
            r == (Tally {
                approvals: 0,
                denials: 0,
                naps: 0,
                napped_ms: 0,
                tokens: 0,
                tokens_today: 0,
                nap_end: 0,
                nap_started: None,
            }),
    {
        Tally {
            approvals: 0,
            denials: 0,
            naps: 0,
            napped_ms: 0,
            tokens: 0,
            tokens_today: 0,
            nap_end: 0,
            nap_started: None,
        }
    }

    /// Record an answered prompt: an approval or a denial, counted apart.
    pub fn answered(&mut self, approved: bool)
        ensures
            *final(self) == (if approved {
                Tally { approvals: bump(old(self).approvals), ..*old(self) }
            } else {
                Tally { denials: bump(old(self).denials), ..*old(self) }
            }),
    {
        if approved {
            self.approvals = if self.approvals < u32::MAX { self.approvals + 1 } else { self.approvals };
        } else {
            self.denials = if self.denials < u32::MAX { self.denials + 1 } else { self.denials };
        }
    }

    /// A nap began at `now`.
    pub fn nap_began(&mut self, now: Tick)
        ensures
            *final(self) == (Tally { nap_started: Some(now), ..*old(self) }),
    {
        self.nap_started = Some(now);
    }

    /// A nap ended at `now`: count it and add its length. A nap end with no recorded start
    /// adds no time but is still counted — a firmware restarted face-down must not lose a nap.
    pub fn nap_ended(&mut self, now: Tick)
        ensures
            *final(self) == (Tally {
                naps: bump(old(self).naps),
                napped_ms: match old(self).nap_started {
                    Some(started) => sat_add_u64(
                        old(self).napped_ms,
                        if now >= started { (now - started) as u64 } else { 0 },
                    ),
                    None => old(self).napped_ms,
                },
                nap_end: now,
                nap_started: None,
                ..*old(self)
            }),
    {
        self.naps = if self.naps < u32::MAX { self.naps + 1 } else { self.naps };
        match self.nap_started {
            Some(started) => {
                let took: u64 = now.saturating_sub(started);
                self.napped_ms = if took > u64::MAX - self.napped_ms { u64::MAX } else { self.napped_ms + took };
            },
            None => {},
        }
        self.nap_started = None;
        self.nap_end = now;
    }

    /// Credit tokens earned since the last observation.
    pub fn credit(&mut self, tokens: u32)
        ensures
            *final(self) == (Tally { tokens: sat_add_u32(old(self).tokens, tokens), ..*old(self) }),
    {
        self.tokens = if tokens > u32::MAX - self.tokens { u32::MAX } else { self.tokens + tokens };
    }

    /// Whole minutes napped.
    pub fn nap_minutes(&self) -> (r: u32)
        ensures
            r == nap_minutes_of(self.napped_ms),
    {
        let m: u64 = self.napped_ms / MINUTE_MS;
        if m > 0xFFFF_FFFF {
            0xFFFF_FFFF
        } else {
            m as u32
        }
    }

    /// The stats page's view: the creature's readings, and the counts as they stand.
    pub fn stats(&self, readings: Readings) -> (r: StatsView)
        ensures
            r == (StatsView {
                mood: readings.mood,
                fed: readings.fed,
                energy: readings.energy,
                level: readings.level,
                approvals: self.approvals,
                denials: self.denials,
                naps: self.naps,
                nap_minutes: nap_minutes_of(self.napped_ms),
                tokens_today: self.tokens_today,
            }),
    {
        StatsView {
            mood: readings.mood,
            fed: readings.fed,
            energy: readings.energy,
            level: readings.level,
            approvals: self.approvals,
            denials: self.denials,
            naps: self.naps,
            nap_minutes: self.nap_minutes(),
            tokens_today: self.tokens_today,
        }
    }
}

} // verus!
