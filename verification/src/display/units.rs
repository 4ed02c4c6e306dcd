//! The two readings that will not fit as digits: a token count, and a span of nap time.
use vstd::prelude::*;
use crate::text::{decimal, push_char, push_decimal};

verus! {

/// A count as a person reads it at a glance: `847`, `128k`, `3M`.
///
/// The reading is truncated toward zero rather than rounded: it never claims a milestone that
/// has not been reached. Millions are capped at 999, which is all the field can hold.
pub struct Compact(pub u32);

/// A span of whole minutes as `14m`, `2h14m`, or `999h+` once it stops being a reading.
///
/// The hours are not rolled over at a day — a buddy left face-down over a weekend has napped
/// for sixty hours — but they are capped at 999, past which the reading says so with a `+`.
pub struct Span(pub u32);

/// The largest millions reading the field can hold.
pub const MILLION_CAP: u32 = 999;

/// The largest hour count the field can hold.
pub const HOUR_CAP: u32 = 999;

/// The text of a compact count.
pub open spec fn compact_text(n: u32) -> Seq<char> {
    if n < 1000 {
        decimal(n as nat)
    } else if n < 1_000_000 {
        decimal((n / 1000) as nat).push('k')
    } else {
        let m = n / 1_000_000;
        decimal((if m > MILLION_CAP { MILLION_CAP } else { m }) as nat).push('M')
    }
}

/// Minutes `0..60` as two digits.
pub open spec fn two_digits(m: nat) -> Seq<char> {
    if m < 10 {
        seq!['0'] + decimal(m)
    } else {
        decimal(m)
    }
}

/// The text of a span of minutes.
pub open spec fn span_text(minutes: u32) -> Seq<char> {
    let hours = minutes / 60;
    let rest = minutes % 60;
    if hours > HOUR_CAP {
        decimal(HOUR_CAP as nat) + seq!['h', '+']
    } else if hours == 0 {
        decimal(rest as nat).push('m')
    } else {
        decimal(hours as nat).push('h') + two_digits(rest as nat).push('m')
    }
}

impl Compact {
    /// The reading, as text.
    pub fn to_string(&self) -> (r: String)
        ensures
            r@ == compact_text(self.0),
    {
        let n: u32 = self.0;
        let mut out: String = String::new();
        if n < 1000 {
            push_decimal(&mut out, n as u64);
        } else if n < 1_000_000 {
            push_decimal(&mut out, (n / 1000) as u64);
            push_char(&mut out, 'k');
        } else {
            let m: u32 = n / 1_000_000;
            let shown: u32 = if m > MILLION_CAP {
                MILLION_CAP
            } else {
                m
            };
            push_decimal(&mut out, shown as u64);
            push_char(&mut out, 'M');
        }
        proof {
            assert(Seq::<char>::empty() + decimal(n as nat) == decimal(n as nat));
            assert(Seq::<char>::empty() + decimal((n / 1000) as nat) == decimal((n / 1000) as nat));
            let m = n / 1_000_000;
            let shown = if m > MILLION_CAP { MILLION_CAP } else { m };
            assert(Seq::<char>::empty() + decimal(shown as nat) == decimal(shown as nat));
        }
        out
    }
}

impl Span {
    /// The reading, as text.
    pub fn to_string(&self) -> (r: String)
        ensures
            r@ == span_text(self.0),
    {
        let hours: u32 = self.0 / 60;
        let rest: u32 = self.0 % 60;
        let mut out: String = String::new();
        if hours > HOUR_CAP {
            push_decimal(&mut out, HOUR_CAP as u64);
            push_char(&mut out, 'h');
            push_char(&mut out, '+');
            proof {
                assert(out@ =~= decimal(HOUR_CAP as nat) + seq!['h', '+']);
            }
        } else if hours == 0 {
            push_decimal(&mut out, rest as u64);
            push_char(&mut out, 'm');
            proof {
                assert(out@ =~= decimal(rest as nat).push('m'));
            }
        } else {
            push_decimal(&mut out, hours as u64);
            push_char(&mut out, 'h');
            let ghost mid = out@;
            if rest < 10 {
                push_char(&mut out, '0');
            }
            push_decimal(&mut out, rest as u64);
            push_char(&mut out, 'm');
            proof {
                assert(mid =~= decimal(hours as nat).push('h'));
                assert(out@ =~= decimal(hours as nat).push('h') + two_digits(rest as nat).push('m'));
            }
        }
        out
    }
}

} // verus!
