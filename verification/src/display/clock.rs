//! The charging clock's two readings: the time, and the power.
use vstd::prelude::*;
use crate::display::page::Tone;
use crate::display::units::two_digits;
use crate::display::view::ClockView;
use crate::text::{decimal, push_char, push_decimal};
use vstd::string::StringExecFns;

verus! {

/// The time of day as `HH:MM`, or `--:--` while unsynced; a nonsense reading is clamped to
/// `23:59` rather than run off the field.
pub struct Time<'a>(pub &'a ClockView);

/// The power reading: the charge when the board can measure it, with `CHG` while charging;
/// otherwise only whether it is charging.
pub struct Power<'a>(pub &'a ClockView);

/// The text of a time reading.
pub open spec fn time_text(time: Option<(u8, u8)>) -> Seq<char> {
    match time {
        Some((hour, minute)) => two_digits((if hour > 23 { 23u8 } else { hour }) as nat) + seq![':']
            + two_digits((if minute > 59 { 59u8 } else { minute }) as nat),
        None => "--:--"@,
    }
}

/// The text of a power reading.
pub open spec fn power_text(battery_pct: Option<u8>, charging: bool) -> Seq<char> {
    match battery_pct {
        Some(pct) => {
            let shown = decimal((if pct > 100 { 100u8 } else { pct }) as nat).push('%');
            if charging {
                shown + " CHG"@
            } else {
                shown
            }
        },
        None => if charging {
            "CHARGING"@
        } else {
            "ON BATTERY"@
        },
    }
}

/// Append `n < 100` as two digits.
fn push_two_digits(out: &mut String, n: u8)
    requires
        n < 100,
    ensures
        final(out)@ == old(out)@ + two_digits(n as nat),
{
    if n < 10 {
        push_char(out, '0');
    }
    push_decimal(out, n as u64);
    proof {
        if n < 10 {
            assert(out@ =~= old(out)@ + (seq!['0'] + decimal(n as nat)));
        }
    }
}

impl<'a> Time<'a> {
    /// The reading, as text.
    pub fn to_string(&self) -> (r: String)
        ensures
            r@ == time_text(self.0.time),
    {
        match self.0.time {
            Some((hour, minute)) => {
                let h: u8 = if hour > 23 {
                    23
                } else {
                    hour
                };
                let m: u8 = if minute > 59 {
                    59
                } else {
                    minute
                };
                let mut out: String = String::new();
                push_two_digits(&mut out, h);
                push_char(&mut out, ':');
                push_two_digits(&mut out, m);
                proof {
                    assert(out@ =~= two_digits(h as nat) + seq![':'] + two_digits(m as nat));
                }
                out
            },
            None => String::from_str("--:--"),
        }
    }
}

impl<'a> Power<'a> {
    /// The reading, as text.
    pub fn to_string(&self) -> (r: String)
        ensures
            r@ == power_text(self.0.battery_pct, self.0.charging),
    {
        match self.0.battery_pct {
            Some(pct) => {
                let shown: u8 = if pct > 100 {
                    100
                } else {
                    pct
                };
                let mut out: String = String::new();
                push_decimal(&mut out, shown as u64);
                push_char(&mut out, '%');
                if self.0.charging {
                    out.append(" CHG");
                }
                proof {
                    assert(Seq::<char>::empty() + decimal(shown as nat) =~= decimal(shown as nat));
                }
                out
            },
            None => if self.0.charging {
                String::from_str("CHARGING")
            } else {
                String::from_str("ON BATTERY")
            },
        }
    }
}

/// The charge at or under which a battery off the charger reads hot.
pub const LOW_BATTERY_PCT: u8 = 20;

/// The tone of the time: bright once it is real, dim while unsynced, so an unsynced clock does
/// not read as an authoritative one.
pub fn time_tone(clock: &ClockView) -> (r: Tone)
    ensures
        r == (if clock.time is Some { Tone::Primary } else { Tone::Dim }),
{
    match clock.time {
        Some(_) => Tone::Primary,
        None => Tone::Dim,
    }
}

/// The tone of the battery reading: charging is calm; a low battery off the charger is hot;
/// anything else is dim. Charging outranks low — a low battery that is filling is a non-event.
pub fn battery_tone(clock: &ClockView) -> (r: Tone)
    ensures
        r == (if clock.charging {
            Tone::Approve
        } else if clock.battery_pct matches Some(pct) && pct <= LOW_BATTERY_PCT {
            Tone::Hot
        } else {
            Tone::Dim
        }),
{
    if clock.charging {
        return Tone::Approve;
    }
    match clock.battery_pct {
        Some(pct) => if pct <= LOW_BATTERY_PCT {
            Tone::Hot
        } else {
            Tone::Dim
        },
        None => Tone::Dim,
    }
}

} // verus!
