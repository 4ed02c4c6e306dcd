//! The status field: the mood in a word, and the session counts.
use vstd::prelude::*;
use crate::display::view::PersonaState;

verus! {

/// The word for a mood, chosen to fit the narrow canvas' thirteen columns.
pub fn persona_word(persona: PersonaState) -> (r: &'static str)
    ensures
        r@ == (match persona {
            PersonaState::Sleep => "SLEEPING"@,
            PersonaState::Idle => "IDLE"@,
            PersonaState::Busy => "BUSY"@,
            PersonaState::Attention => "WAITING"@,
            PersonaState::Celebrate => "DONE!"@,
            PersonaState::Dizzy => "DIZZY"@,
            PersonaState::Heart => "THANKS"@,
        }),
{
    match persona {
        PersonaState::Sleep => "SLEEPING",
        PersonaState::Idle => "IDLE",
        PersonaState::Busy => "BUSY",
        PersonaState::Attention => "WAITING",
        PersonaState::Celebrate => "DONE!",
        PersonaState::Dizzy => "DIZZY",
        PersonaState::Heart => "THANKS",
    }
}

/// The largest session count the two-digit field can show.
pub const COUNT_CAP: u32 = 99;

/// A count as the status row shows it, saturating at [`COUNT_CAP`] rather than growing a
/// third digit past the edge.
pub fn capped(count: u32) -> (r: u32)
    ensures
        r == (if count > COUNT_CAP { COUNT_CAP } else { count }),
{
    if count > COUNT_CAP {
        COUNT_CAP
    } else {
        count
    }
}

} // verus!
