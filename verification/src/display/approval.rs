//! The approval screen's elapsed reading.
use vstd::prelude::*;
use crate::text::{decimal, push_char, push_decimal};

verus! {

/// How long a prompt has waited, kept short: seconds below a hundred, then whole minutes,
/// capped at 99.
pub struct Waited(pub u32);

/// The text of an elapsed reading.
pub open spec fn waited_text(seconds: u32) -> Seq<char> {
    if seconds < 100 {
        decimal(seconds as nat).push('s')
    } else {
        let minutes = seconds / 60;
        decimal((if minutes > 99 { 99 } else { minutes }) as nat).push('m')
    }
}

impl Waited {
    /// The reading, as text.
    pub fn to_string(&self) -> (r: String)
        ensures
            r@ == waited_text(self.0),
    {
        let mut out: String = String::new();
        if self.0 < 100 {
            push_decimal(&mut out, self.0 as u64);
            push_char(&mut out, 's');
            proof {
                assert(Seq::<char>::empty() + decimal(self.0 as nat) =~= decimal(self.0 as nat));
            }
        } else {
            let minutes: u32 = self.0 / 60;
            let shown: u32 = if minutes > 99 {
                99
            } else {
                minutes
            };
            push_decimal(&mut out, shown as u64);
            push_char(&mut out, 'm');
            proof {
                assert(Seq::<char>::empty() + decimal(shown as nat) =~= decimal(shown as nat));
            }
        }
        out
    }
}

} // verus!
