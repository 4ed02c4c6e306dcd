//! Everything on the glass, as plain values: the prompt, the transcript, the stats, the clock,
//! the device facts, the screen and the overlay.
//!
//! The firmware fills these from the merged wire snapshot each frame; nothing here reads a
//! clock, a socket or a pin.
use vstd::prelude::*;

verus! {

/// Characters of a tool name the glass can show.
pub const TOOL_CAP: usize = 24;

/// Characters of a prompt hint the glass can show — two full landscape lines.
pub const HINT_CAP: usize = 48;

/// Characters of one transcript entry the glass can show.
pub const ENTRY_CAP: usize = 64;

/// Characters of a short device field — a name, a firmware version.
pub const FIELD_CAP: usize = 24;

/// Transcript entries a view carries: more than can ever be on the glass at once, and bounded
/// so the view stays small.
pub const TRANSCRIPT_SLOTS: usize = 4;

/// The seconds a prompt may wait before the approval screen turns hot. Not a timeout —
/// nothing expires; it is where the colour stops informing and starts asking.
pub const HOT_AFTER_S: u32 = 10;

/// A permission prompt waiting for the owner's answer.
#[derive(Clone, PartialEq, Eq, Debug)]
pub struct PromptView {
    /// The tool the prompt is about.
    pub tool: String,
    /// A short human hint — the command, the path, the URL.
    pub hint: String,
    /// Whole seconds since the prompt arrived.
    pub waiting_s: u32,
}

impl PromptView {
    /// Whether the prompt has waited long enough to be drawn hot: at [`HOT_AFTER_S`] seconds
    /// and after, not before.
    pub fn is_hot(&self) -> (r: bool)
        ensures
            r == (self.waiting_s >= HOT_AFTER_S),
    {
        self.waiting_s >= HOT_AFTER_S
    }
}

/// The transcript, newest first, with the count the host actually holds. The band shows the
/// newest few; the scroll indicator shows how many are behind them.
#[derive(Clone, PartialEq, Eq, Debug)]
pub struct Transcript {
    entries: Vec<String>,
    total: usize,
}

/// The entries a transcript keeps of a wire list (oldest first): the newest
/// [`TRANSCRIPT_SLOTS`], newest first.
pub open spec fn kept_entries(wire: Seq<Seq<char>>) -> Seq<Seq<char>> {
    let start: int = if wire.len() > TRANSCRIPT_SLOTS {
        wire.len() - TRANSCRIPT_SLOTS
    } else {
        0
    };
    wire.subrange(start, wire.len() as int).reverse()
}

impl Transcript {
    /// The entries carried, newest first.
    pub closed spec fn held(&self) -> Seq<Seq<char>> {
        self.entries@.map_values(|s: String| s@)
    }

    /// The length of the whole list the transcript was made from.
    pub closed spec fn whole(&self) -> nat {
        self.total as nat
    }

    /// An empty transcript: nothing held, nothing behind.
    pub fn empty() -> (r: Self)
        ensures
            r.held() == Seq::<Seq<char>>::empty(),
            r.whole() == 0,
    {
        let r = Transcript { entries: Vec::new(), total: 0 };
        proof {
            assert(r.held() =~= Seq::<Seq<char>>::empty());
        }
        r
    }

    /// The transcript for a wire entry list, which arrives oldest first: keeps the newest
    /// [`TRANSCRIPT_SLOTS`] and stores them newest first, so index 0 is the bright line;
    /// `total` records the whole list's length.
    pub fn oldest_first(entries: &[&str]) -> (r: Self)
        ensures
            r.held() == kept_entries(entries@.map_values(|s: &str| s@)),
            r.whole() == entries@.len(),
    {
        let n: usize = entries.len();
        let start: usize = if n > TRANSCRIPT_SLOTS {
            n - TRANSCRIPT_SLOTS
        } else {
            0
        };
        let ghost wire = entries@.map_values(|s: &str| s@);
        let ghost kept = kept_entries(wire);
        let mut held: Vec<String> = Vec::new();
        let mut i: usize = n;
        while i > start
            invariant
                start <= i <= n,
                n == entries@.len(),
                wire == entries@.map_values(|s: &str| s@),
                kept == kept_entries(wire),
                start == (if n > TRANSCRIPT_SLOTS { n - TRANSCRIPT_SLOTS } else { 0 }),
                held@.len() == n - i,
                forall|k: int| 0 <= k < held@.len() ==> #[trigger] held@[k]@ == kept[k],
            decreases i,
        {
            i = i - 1;
            proof {
                assert(kept[(n - 1 - i) as int] == wire[i as int]);
            }
            held.push(String::from_str(entries[i]));
        }
        let r = Transcript { entries: held, total: n };
        proof {
            assert(r.held() =~= kept);
        }
        r
    }

    /// The entries the view carries, newest first.
    pub fn newest_first(&self) -> (r: &[String])
        ensures
            r@.map_values(|s: String| s@) == self.held(),
    {
        self.entries.as_slice()
    }

    /// How many entries the host holds in all — the scroll indicator's denominator.
    pub fn total(&self) -> (r: usize)
        ensures
            r == self.whole(),
    {
        self.total
    }

    /// Whether there is nothing to show.
    pub fn is_empty(&self) -> (r: bool)
        ensures
            r == (self.held().len() == 0),
    {
        self.entries.len() == 0
    }
}

/// The stats the pet screen reads, already reduced to tiers.
#[derive(Clone, Copy, PartialEq, Eq, Debug, Structural)]
pub struct StatsView {
    /// Mood tier, `0..=4`.
    pub mood: u8,
    /// Fed progress, `0..=9`.
    pub fed: u8,
    /// Energy tier, `0..=5`.
    pub energy: u8,
    /// The level.
    pub level: u32,
    /// Approvals the owner has granted.
    pub approvals: u32,
    /// Denials the owner has issued.
    pub denials: u32,
    /// Naps taken.
    pub naps: u32,
    /// Whole minutes spent napping.
    pub nap_minutes: u32,
    /// Today's token count.
    pub tokens_today: u32,
}

/// The wall clock, as the charging screen shows it.
#[derive(Clone, Copy, PartialEq, Eq, Debug)]
pub struct ClockView {
    /// The hour and minute, or `None` while no host has said what time it is — the glass shows
    /// dashes rather than a midnight nobody set.
    pub time: Option<(u8, u8)>,
    /// Battery charge in percent, when the board can actually measure it — `None` rather than a
    /// plausible number when it cannot.
    pub battery_pct: Option<u8>,
    /// Whether the board is on external power.
    pub charging: bool,
}

/// What the info screen's device and bluetooth pages report.
#[derive(Clone, PartialEq, Eq, Debug)]
pub struct DeviceView {
    /// The advertised name.
    pub name: String,
    /// The firmware version.
    pub firmware: String,
    /// The Bluetooth address.
    pub address: String,
    /// The owner label.
    pub owner: String,
    /// Whether a central is bonded.
    pub bonded: bool,
    /// Whether the bridge link is live.
    pub linked: bool,
}

/// Which screen the buddy is showing.
#[derive(Clone, Copy, PartialEq, Eq, Debug, Structural)]
pub enum Screen {
    /// The creature and its transcript HUD — the resting screen.
    Home,
    /// The pet screen, at one of its two pages.
    Pet(PetPage),
    /// The info screen, at one of its six pages.
    Info(InfoPage),
    /// The charging clock.
    Clock,
}

/// The pet screen's two pages.
#[derive(Clone, Copy, PartialEq, Eq, Debug, Structural)]
pub enum PetPage {
    /// Mood, fed, energy, level, counts, nap time, tokens.
    Stats,
    /// How the pet works.
    HowTo,
}

/// The info screen's six pages, in cursor order.
#[derive(Clone, Copy, PartialEq, Eq, Debug, Structural)]
pub enum InfoPage {
    /// What this thing is.
    About,
    /// What the two buttons do.
    Buttons,
    /// What it does with the coding agent.
    Claude,
    /// This board: firmware, name, owner.
    Device,
    /// The BLE link: address, bond, bridge.
    Bluetooth,
    /// Whose art and whose code.
    Credits,
}

impl InfoPage {
    /// The pages in cursor order.
    pub const ALL: [InfoPage; 6] = [
        InfoPage::About,
        InfoPage::Buttons,
        InfoPage::Claude,
        InfoPage::Device,
        InfoPage::Bluetooth,
        InfoPage::Credits,
    ];
}

/// The mood the creature wears.
#[derive(Clone, Copy, PartialEq, Eq, Debug, Structural)]
pub enum PersonaState {
    /// Asleep.
    Sleep,
    /// Awake with nothing to do.
    Idle,
    /// Sessions are running.
    Busy,
    /// A prompt wants the owner.
    Attention,
    /// Something finished.
    Celebrate,
    /// Shaken.
    Dizzy,
    /// Thanked for a quick answer.
    Heart,
}

/// A settings-menu entry.
#[derive(Clone, Copy, PartialEq, Eq, Debug, Structural)]
pub enum MenuEntry {
    /// The creature.
    Species,
    /// The owner label.
    Owner,
    /// The link status.
    Status,
    /// Forget the bond.
    Unpair,
    /// Close the menu.
    Close,
}

/// An overlay drawn on top of whatever screen is underneath. They nest — the reset
/// confirmation is reached from settings, settings from the menu — so the innermost wins.
#[derive(Clone, Copy, PartialEq, Eq, Debug, Structural)]
pub enum Overlay {
    /// Nothing on top.
    Nothing,
    /// The settings menu, with the cursor on an entry index.
    Menu {
        /// The highlighted entry index.
        cursor: u8,
    },
    /// A settings entry opened for reading or editing.
    Settings {
        /// The entry being shown.
        entry: MenuEntry,
    },
    /// The destructive confirmation: forget the bond and start over.
    Reset,
}

impl Overlay {
    /// How far in this overlay is — higher wins when more than one could be drawn: none, then
    /// the menu, then settings, then the reset confirmation.
    pub fn priority(&self) -> (r: u8)
        ensures
            r == (match *self {
                Overlay::Nothing => 0u8,
                Overlay::Menu { .. } => 1u8,
                Overlay::Settings { .. } => 2u8,
                Overlay::Reset => 3u8,
            }),
    {
        match self {
            Overlay::Nothing => 0,
            Overlay::Menu { .. } => 1,
            Overlay::Settings { .. } => 2,
            Overlay::Reset => 3,
        }
    }

    /// Whether anything is drawn on top.
    pub fn is_open(&self) -> (r: bool)
        ensures
            r == !(*self is Nothing),
    {
        !matches!(self, Overlay::Nothing)
    }
}

/// Everything the glass shows in one frame.
#[derive(Clone, PartialEq, Eq, Debug)]
pub struct BuddyView {
    /// The mood the creature wears.
    pub persona: PersonaState,
    /// The chosen creature's registry index.
    pub species: u8,
    /// Which screen is showing.
    pub screen: Screen,
    /// What is drawn on top of it.
    pub overlay: Overlay,
    /// A pairing passkey being displayed; `Some` takes over the whole glass.
    pub passkey: Option<u32>,
    /// A permission prompt waiting for an answer, which replaces the transcript band.
    pub prompt: Option<PromptView>,
    /// The transcript behind the band.
    pub transcript: Transcript,
    /// The stats the pet screen reads.
    pub stats: StatsView,
    /// The wall clock the charging screen shows.
    pub clock: ClockView,
    /// What the info screen reports about this board.
    pub device: DeviceView,
    /// Sessions currently running, for the status field.
    pub sessions_running: u32,
    /// Sessions waiting on the owner, for the status field.
    pub sessions_waiting: u32,
}

impl BuddyView {
    /// Whether the creature is on the glass at all: not under a passkey, and only at home.
    pub fn shows_creature(&self) -> (r: bool)
        ensures
            r == (self.passkey is None && self.screen == Screen::Home),
    {
        self.passkey.is_none() && matches!(self.screen, Screen::Home)
    }
}

impl Default for Screen {
    /// Home.
    fn default() -> (r: Self)
        ensures
            r == Screen::Home,
    {
        Screen::Home
    }
}

impl Default for PetPage {
    /// The stats page.
    fn default() -> (r: Self)
        ensures
            r == PetPage::Stats,
    {
        PetPage::Stats
    }
}

impl Default for InfoPage {
    /// The about page.
    fn default() -> (r: Self)
        ensures
            r == InfoPage::About,
    {
        InfoPage::About
    }
}

impl Default for Overlay {
    /// Nothing on top.
    fn default() -> (r: Self)
        ensures
            r == Overlay::Nothing,
    {
        Overlay::Nothing
    }
}

impl Default for Transcript {
    /// An empty transcript.
    fn default() -> (r: Self)
        ensures
            r.held() == Seq::<Seq<char>>::empty(),
            r.whole() == 0,
    {
        Transcript::empty()
    }
}

impl Default for StatsView {
    /// All zeros.
    fn default() -> (r: Self)
        ensures
            r == (StatsView {
                mood: 0,
                fed: 0,
                energy: 0,
                level: 0,
                approvals: 0,
                denials: 0,
                naps: 0,
                nap_minutes: 0,
                tokens_today: 0,
            }),
    {
        StatsView {
            mood: 0,
            fed: 0,
            energy: 0,
            level: 0,
            approvals: 0,
            denials: 0,
            naps: 0,
            nap_minutes: 0,
            tokens_today: 0,
        }
    }
}

impl Default for ClockView {
    /// No time, no battery reading, not charging.
    fn default() -> (r: Self)
        ensures
            r == (ClockView { time: None, battery_pct: None, charging: false }),
    {
        ClockView { time: None, battery_pct: None, charging: false }
    }
}

} // verus!
