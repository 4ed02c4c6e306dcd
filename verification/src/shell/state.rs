//! The device state: what the stick knows, and the ways it changes.
//!
//! A line arrives ([`DeviceState::apply`]) or a button is pressed ([`DeviceState::press`]);
//! time passes ([`DeviceState::tick`]); and the readers say what the glass shows for it. No
//! thread, no socket, no pin — the composition root supplies those, and the creature's own
//! rules (its menu, its species registry, its moods) arrive as the values they decided.
//!
//! ## The fail-safe, on this side of the seam
//!
//! Only [`Inbound::Snapshot`] carries a packet the merge can touch. [`DeviceState::apply`]
//! matches exhaustively and the three other arms do not go near the prompt. An absent `prompt`
//! field on a real snapshot means "gone", and that is the only thing that clears one.
//!
//! ## The two buttons have a claim order
//!
//! 1. an **unanswered prompt** owns both buttons — A allows, B denies;
//! 2. the **reset confirmation** owns both — A confirms, anything else cancels;
//! 3. a **settings page** takes B to close;
//! 4. the **menu**, while open or on a hold, takes what the menu decided;
//! 5. otherwise **navigation** — A turns the page, B walks the screens.
use vstd::prelude::*;
use crate::display::view::{BuddyView, PersonaState, StatsView, ClockView, DeviceView, MenuEntry, Overlay, PromptView, Screen, Transcript, kept_entries};
use crate::shell::identity::Identity;
use crate::shell::tally::{Readings, Tally, bump};
use crate::shell::nav::{ButtonEvent, ButtonId, Gesture, Nav, next_page_spec, next_screen_spec};
use crate::shell::wall::{Tick, WallClock, fits, local_seconds};
use crate::text::str_eq;
use crate::wire::command::{Command, CommandModel};
use crate::wire::inbound::{Inbound, InboundModel, PromptModel, SnapshotState, StateModel, merged};
use crate::json::tree_text;
use crate::shell::ports::{Bond, Notifier, NotifyError, SpeciesStore};
use crate::wire::permission::{Decision, PermissionResponse, response_tree};

verus! {

/// How long after the last inbound line the link is still considered live: three missed
/// ten-second heartbeats.
pub const LINK_WINDOW_MS: Tick = 30_000;

/// What a button press asks the composition root to do, beyond changing the picture.
#[derive(Clone, PartialEq, Eq, Debug)]
pub enum Effect {
    /// Nothing to do outside the state.
    Nothing,
    /// Send this permission response to the host.
    Answer(PermissionResponse),
    /// Forget the BLE bond and start over (and close the menu).
    ForgetBond,
    /// The selected species changed; persist it.
    PersistSpecies(u8),
}

/// What the creature's settings menu decided about one button event.
#[derive(Clone, Copy, PartialEq, Eq, Debug, Structural)]
pub enum MenuOutcome {
    /// An entry was selected.
    Selected(MenuEntry),
    /// The menu closed.
    Closed,
    /// The menu opened.
    Opened,
    /// The cursor moved.
    Moved,
    /// The event meant nothing to the menu.
    Nothing,
}

/// What the creature's posture did this frame, as the creature decides it.
#[derive(Clone, Copy, PartialEq, Eq, Debug, Structural)]
pub enum NapTransition {
    /// A nap began.
    Entered,
    /// A nap ended.
    Left,
    /// Neither.
    Nothing,
}

/// Whether `e` is a click of `button`.
pub open spec fn is_click(e: ButtonEvent, button: ButtonId) -> bool {
    e.button == button && e.gesture == Gesture::Click
}

/// The screen navigation moves to on `e`: an A click turns the page, a B click walks to the
/// next screen, anything else stays.
pub open spec fn nav_after(s: Screen, e: ButtonEvent) -> Screen {
    if is_click(e, ButtonId::Front) {
        next_page_spec(s)
    } else if is_click(e, ButtonId::Side) {
        next_screen_spec(s)
    } else {
        s
    }
}

/// An optional string, as characters.
pub open spec fn opt_chars(s: Option<String>) -> Option<Seq<char>> {
    match s {
        Some(s) => Some(s@),
        None => None,
    }
}

/// The id of a pending prompt.
pub open spec fn prompt_id_of(p: Option<PromptModel>) -> Option<Seq<char>> {
    match p {
        Some(p) => Some(p.id),
        None => None,
    }
}

/// The id of the pending prompt when it has not been answered yet.
pub open spec fn unanswered_of(p: Option<PromptModel>, answered: Option<Seq<char>>) -> Option<Seq<char>> {
    match prompt_id_of(p) {
        Some(id) => if answered == Some(id) {
            None
        } else {
            Some(id)
        },
        None => None,
    }
}

/// Whole seconds from `since` to `now`, none when `now` is earlier, capped at `u32::MAX`.
pub open spec fn waited_s(since: Tick, now: Tick) -> u32 {
    let ms: int = if now >= since { now - since } else { 0 };
    if ms / 1000 > u32::MAX { u32::MAX } else { (ms / 1000) as u32 }
}

/// The approval counter reads whole seconds since the prompt arrived: never ahead of the
/// clock, and less than a second behind it until it reaches its cap; a tick before the
/// prompt's arrival reads zero.
pub proof fn the_counter_counts_whole_seconds(since: Tick, now: Tick)
    ensures
        now < since ==> waited_s(since, now) == 0,
        now >= since && (now - since) / 1000 <= u32::MAX ==> waited_s(since, now) * 1000 <= now - since < waited_s(
            since,
            now,
        ) * 1000 + 1000,
        now >= since && (now - since) / 1000 > u32::MAX ==> waited_s(since, now) == u32::MAX,
{
}

/// A prompt waits for an answer exactly when one is pending and its own id has not been
/// answered: answering one prompt never answers another.
pub proof fn an_answer_belongs_to_its_prompt(p: Option<PromptModel>, answered: Option<Seq<char>>)
    ensures
        unanswered_of(p, answered) is Some <==> (p is Some && answered != Some(p->Some_0.id)),
        unanswered_of(p, answered) matches Some(id) ==> id == p->Some_0.id,
{
}

/// Everything the stick knows.
#[derive(Clone, Debug)]
pub struct DeviceState {
    identity: Identity,
    snapshot: SnapshotState,
    nav: Nav,
    wall: WallClock,
    /// When the prompt currently on the glass arrived.
    prompt_since: Tick,
    /// The prompt id already answered.
    answered: Option<String>,
    /// A settings entry opened from the menu.
    settings: Option<MenuEntry>,
    /// Whether the destructive confirmation is up.
    reset_pending: bool,
    /// A pairing passkey being shown.
    passkey: Option<u32>,
    /// When the last inbound line arrived, if any ever has.
    last_inbound: Option<Tick>,
    /// Whether a central is bonded.
    bonded: bool,
    /// Whether the board is on external power.
    charging: bool,
    /// Battery charge in percent, when a gauge is wired.
    battery_pct: Option<u8>,
    /// The tick every reading is taken at.
    now: Tick,
    /// The creature's species index.
    species: u8,
    /// What the pet has been through.
    tally: Tally,
}

impl DeviceState {
    /// The identity.
    pub closed spec fn identity(&self) -> Identity {
        self.identity
    }

    /// The merged snapshot.
    pub closed spec fn snapshot(&self) -> StateModel {
        self.snapshot@
    }

    /// The screen navigation stands on.
    pub closed spec fn screen(&self) -> Screen {
        self.nav@
    }

    /// The wall clock's sync.
    pub closed spec fn wall(&self) -> Option<(i64, u64)> {
        self.wall@
    }

    /// When the pending prompt arrived.
    pub closed spec fn prompt_since(&self) -> Tick {
        self.prompt_since
    }

    /// The prompt id already answered.
    pub closed spec fn answered(&self) -> Option<Seq<char>> {
        opt_chars(self.answered)
    }

    /// The open settings entry.
    pub closed spec fn settings(&self) -> Option<MenuEntry> {
        self.settings
    }

    /// Whether the reset confirmation is up.
    pub closed spec fn reset_pending(&self) -> bool {
        self.reset_pending
    }

    /// The passkey on the glass.
    pub closed spec fn passkey(&self) -> Option<u32> {
        self.passkey
    }

    /// When the last inbound line arrived.
    pub closed spec fn last_inbound(&self) -> Option<Tick> {
        self.last_inbound
    }

    /// Whether a central is bonded.
    pub closed spec fn bonded(&self) -> bool {
        self.bonded
    }

    /// Whether the board is charging.
    pub closed spec fn charging(&self) -> bool {
        self.charging
    }

    /// The battery charge, when known.
    pub closed spec fn battery_pct(&self) -> Option<u8> {
        self.battery_pct
    }

    /// The tick readings are taken at.
    pub closed spec fn now(&self) -> Tick {
        self.now
    }

    /// The creature's species index.
    pub closed spec fn species(&self) -> u8 {
        self.species
    }

    /// The pet's running totals.
    pub closed spec fn tally(&self) -> Tally {
        self.tally
    }

    /// The id of the prompt still waiting for an answer.
    pub open spec fn unanswered(&self) -> Option<Seq<char>> {
        unanswered_of(self.snapshot().prompt, self.answered())
    }

    /// What the prompt fail-safe guards: the pending prompt, which of them was answered, and
    /// when it arrived.
    pub open spec fn prompt_state(&self) -> (Option<PromptModel>, Option<Seq<char>>, Tick) {
        (self.snapshot().prompt, self.answered(), self.prompt_since())
    }

    /// Whether `other` holds the same identity, wall clock, link, power and passkey facts.
    pub open spec fn same_facts(&self, other: &DeviceState) -> bool {
        &&& self.identity() == other.identity()
        &&& self.wall() == other.wall()
        &&& self.passkey() == other.passkey()
        &&& self.last_inbound() == other.last_inbound()
        &&& self.bonded() == other.bonded()
        &&& self.charging() == other.charging()
        &&& self.battery_pct() == other.battery_pct()
    }

    /// Whether `other` holds the same overlays, screen and species.
    pub open spec fn same_controls(&self, other: &DeviceState) -> bool {
        &&& self.settings() == other.settings()
        &&& self.reset_pending() == other.reset_pending()
        &&& self.screen() == other.screen()
        &&& self.species() == other.species()
    }

    /// A freshly booted stick: at home, unlinked, unsynced, nothing pending.
    pub fn new(identity: Identity, species: u8) -> (r: Self)
        ensures
            r.identity() == identity,
            r.snapshot().prompt is None,
            r.snapshot().entries == Seq::<Seq<char>>::empty(),
            r.screen() == Screen::Home,
            r.wall() is None,
            r.prompt_since() == 0,
            r.answered() is None,
            r.settings() is None,
            !r.reset_pending(),
            r.passkey() is None,
            r.last_inbound() is None,
            !r.bonded(),
            !r.charging(),
            r.battery_pct() is None,
            r.now() == 0,
            r.species() == species,
            r.tally().approvals == 0 && r.tally().denials == 0 && r.tally().naps == 0,
    {
        DeviceState {
            identity,
            snapshot: SnapshotState {
                total: 0,
                running: 0,
                waiting: 0,
                completed: false,
                tokens_today: 0,
                msg: String::new(),
                entries: Vec::new(),
                prompt: None,
            },
            nav: Nav::new(),
            wall: WallClock::new(),
            prompt_since: 0,
            answered: None,
            settings: None,
            reset_pending: false,
            passkey: None,
            last_inbound: None,
            bonded: false,
            charging: false,
            battery_pct: None,
            now: 0,
            species,
            tally: Tally::new(),
        }
    }

    /// The id of the prompt the host has pending, answered or not.
    fn prompt_id(&self) -> (r: Option<String>)
        ensures
            opt_chars(r) == prompt_id_of(self.snapshot().prompt),
    {
        match &self.snapshot.prompt {
            Some(p) => Some(p.id.clone()),
            None => None,
        }
    }

    /// The id of the prompt still waiting for an answer.
    fn unanswered_prompt_id(&self) -> (r: Option<String>)
        ensures
            opt_chars(r) == self.unanswered(),
    {
        match self.prompt_id() {
            Some(id) => match &self.answered {
                Some(done) => if str_eq(done.as_str(), id.as_str()) {
                    None
                } else {
                    Some(id)
                },
                None => Some(id),
            },
            None => None,
        }
    }

    /// Fold one inbound wire message in at `now`, answering the desktop token total a snapshot
    /// carried for the stats latch. Every shape refreshes the link; only a snapshot touches the
    /// prompt, and a new (or cleared) prompt restarts the counter and forgets the answer.
    pub fn apply(&mut self, inbound: Inbound, now: Tick) -> (r: Option<u32>)
        requires
            inbound@ matches InboundModel::Time { epoch, tz_offset_s } ==> i64::MIN <= epoch
                + tz_offset_s <= i64::MAX,
        ensures
            final(self).last_inbound() == Some(now),
            final(self).tally() == (if r is Some {
                Tally { tokens_today: final(self).snapshot().tokens_today, ..old(self).tally() }
            } else {
                old(self).tally()
            }),
            final(self).settings() == old(self).settings(),
            final(self).reset_pending() == old(self).reset_pending(),
            final(self).screen() == old(self).screen(),
            final(self).species() == (match inbound@ {
                InboundModel::Command(CommandModel::Species(index)) => index,
                _ => old(self).species(),
            }),
            final(self).passkey() == old(self).passkey(),
            final(self).bonded() == old(self).bonded(),
            final(self).charging() == old(self).charging(),
            final(self).battery_pct() == old(self).battery_pct(),
            final(self).now() == old(self).now(),
            !(inbound@ is Snapshot) ==> final(self).prompt_state() == old(self).prompt_state()
                && final(self).snapshot() == old(self).snapshot(),
            match inbound@ {
                InboundModel::Snapshot(p) => {
                    &&& r == p.tokens
                    &&& final(self).snapshot() == merged(old(self).snapshot(), p)
                    &&& if prompt_id_of(p.prompt) != prompt_id_of(old(self).snapshot().prompt) {
                        final(self).prompt_since() == now && final(self).answered() is None
                    } else {
                        final(self).prompt_since() == old(self).prompt_since()
                            && final(self).answered() == old(self).answered()
                    }
                    &&& final(self).wall() == old(self).wall()
                    &&& final(self).identity() == old(self).identity()
                },
                InboundModel::Time { epoch, tz_offset_s } => {
                    &&& r is None
                    &&& final(self).wall() == Some(((epoch + tz_offset_s) as i64, now))
                    &&& final(self).identity() == old(self).identity()
                },
                InboundModel::Command(c) => {
                    &&& r is None
                    &&& final(self).wall() == old(self).wall()
                    &&& match c {
                        CommandModel::Name(n) => final(self).identity().name@ == n
                            && final(self).identity().owner == old(self).identity().owner
                            && final(self).identity().firmware == old(self).identity().firmware
                            && final(self).identity().address == old(self).identity().address,
                        CommandModel::Owner(o) => final(self).identity().owner@ == o
                            && final(self).identity().name == old(self).identity().name
                            && final(self).identity().firmware == old(self).identity().firmware
                            && final(self).identity().address == old(self).identity().address,
                        _ => final(self).identity() == old(self).identity(),
                    }
                },
                InboundModel::Event(_) => {
                    &&& r is None
                    &&& final(self).wall() == old(self).wall()
                    &&& final(self).identity() == old(self).identity()
                },
            },
    {
        self.last_inbound = Some(now);
        match inbound {
            Inbound::Snapshot(packet) => {
                let before: Option<String> = self.prompt_id();
                let total: Option<u32> = self.snapshot.merge(&packet);
                if total.is_some() {
                    self.tally.tokens_today = self.snapshot.tokens_today;
                }
                let after: Option<String> = self.prompt_id();
                if !same_id(&after, &before) {
                    self.prompt_since = now;
                    self.answered = None;
                }
                total
            },
            Inbound::Time { epoch, tz_offset_s } => {
                self.wall.sync(epoch, tz_offset_s, now);
                None
            },
            Inbound::Command(command) => {
                match command {
                    Command::Name(name) => self.identity.name = name,
                    Command::Owner(owner) => self.identity.owner = owner,
                    Command::Species(index) => self.species = index,
                    _ => {},
                }
                None
            },
            Inbound::Event(_) => None,
        }
    }

    /// Advance the clock every reading is taken at, and count a nap the creature entered or
    /// left this frame.
    pub fn tick(&mut self, now: Tick, nap: NapTransition)
        ensures
            final(self).now() == now,
            final(self).same_facts(old(self)),
            final(self).same_controls(old(self)),
            final(self).snapshot() == old(self).snapshot(),
            final(self).prompt_state() == old(self).prompt_state(),
            final(self).tally() == (match nap {
                NapTransition::Entered => Tally { nap_started: Some(now), ..old(self).tally() },
                NapTransition::Left => Tally {
                    naps: bump(old(self).tally().naps),
                    napped_ms: match old(self).tally().nap_started {
                        Some(started) => crate::shell::tally::sat_add_u64(
                            old(self).tally().napped_ms,
                            if now >= started { (now - started) as u64 } else { 0 },
                        ),
                        None => old(self).tally().napped_ms,
                    },
                    nap_end: now,
                    nap_started: None,
                    ..old(self).tally()
                },
                NapTransition::Nothing => old(self).tally(),
            }),
    {
        self.now = now;
        match nap {
            NapTransition::Entered => self.tally.nap_began(now),
            NapTransition::Left => self.tally.nap_ended(now),
            NapTransition::Nothing => {},
        }
    }

    /// Credit tokens the creature observed earned since the last snapshot.
    pub fn credit(&mut self, earned: u32)
        ensures
            final(self).tally() == (Tally {
                tokens: crate::shell::tally::sat_add_u32(old(self).tally().tokens, earned),
                ..old(self).tally()
            }),
            final(self).same_facts(old(self)),
            final(self).same_controls(old(self)),
            final(self).snapshot() == old(self).snapshot(),
            final(self).prompt_state() == old(self).prompt_state(),
            final(self).now() == old(self).now(),
    {
        self.tally.credit(earned);
    }

    /// Report the power state. Put on the charger, the stick shows the clock; taken off, it
    /// goes back home — but only from the clock, so a plug-in does not move the owner off a
    /// page they walked to themselves.
    pub fn power(&mut self, charging: bool, battery_pct: Option<u8>)
        ensures
            final(self).charging() == charging,
            final(self).battery_pct() == battery_pct,
            final(self).screen() == (if charging && !old(self).charging() {
                Screen::Clock
            } else if !charging && old(self).charging() && old(self).screen() == Screen::Clock {
                Screen::Home
            } else {
                old(self).screen()
            }),
            final(self).identity() == old(self).identity(),
            final(self).wall() == old(self).wall(),
            final(self).snapshot() == old(self).snapshot(),
            final(self).prompt_state() == old(self).prompt_state(),
            final(self).now() == old(self).now(),
    {
        let docked: bool = charging && !self.charging;
        let undocked: bool = !charging && self.charging;
        self.charging = charging;
        self.battery_pct = battery_pct;
        if docked {
            self.nav.show(Screen::Clock);
        } else if undocked && same_screen_is_clock(self.nav.screen()) {
            self.nav.show(Screen::Home);
        }
    }

    /// Show (or clear) a pairing passkey; `Some` takes over the whole glass.
    pub fn show_passkey(&mut self, passkey: Option<u32>)
        ensures
            final(self).passkey() == passkey,
            final(self).same_controls(old(self)),
            final(self).snapshot() == old(self).snapshot(),
            final(self).prompt_state() == old(self).prompt_state(),
    {
        self.passkey = passkey;
    }

    /// Report whether a central is bonded.
    pub fn set_bonded(&mut self, bonded: bool)
        ensures
            final(self).bonded() == bonded,
            final(self).same_controls(old(self)),
            final(self).snapshot() == old(self).snapshot(),
            final(self).prompt_state() == old(self).prompt_state(),
    {
        self.bonded = bonded;
    }

    /// Whether the bridge link is live: an inbound line inside [`LINK_WINDOW_MS`] of the
    /// current tick.
    pub fn is_linked(&self) -> (r: bool)
        ensures
            r == (self.last_inbound() matches Some(at) && (if self.now() >= at {
                self.now() - at
            } else {
                0
            }) < LINK_WINDOW_MS),
    {
        match self.last_inbound {
            Some(at) => self.now.saturating_sub(at) < LINK_WINDOW_MS,
            None => false,
        }
    }

    /// Fold one button press in at `now`, answering what the composition root must do.
    ///
    /// `menu_open` is whether the creature's menu is open, `menu` what the menu decided about
    /// `event`, and `next_species` the index the species cycle lands on; they count only where
    /// the claim order reaches the menu.
    pub fn press(
        &mut self,
        event: ButtonEvent,
        now: Tick,
        menu_open: bool,
        menu: MenuOutcome,
        next_species: u8,
    ) -> (r: Effect)
        ensures
            final(self).now() == now,
            final(self).same_facts(old(self)),
            final(self).snapshot() == old(self).snapshot(),
            final(self).prompt_since() == old(self).prompt_since(),
            old(self).unanswered() is None ==> !(r is Answer),
            r is Answer ==> final(self).unanswered() is None,
            final(self).tally() == (match r {
                Effect::Answer(resp) => if resp.decision == Decision::Once {
                    Tally { approvals: bump(old(self).tally().approvals), ..old(self).tally() }
                } else {
                    Tally { denials: bump(old(self).tally().denials), ..old(self).tally() }
                },
                _ => old(self).tally(),
            }),
            ({
                let u = old(self).unanswered();
                if u is Some && (is_click(event, ButtonId::Front) || is_click(event, ButtonId::Side)) {
                    &&& r matches Effect::Answer(resp) && resp@.id == u->0 && resp.decision == (if is_click(event, ButtonId::Front) {
                        Decision::Once
                    } else {
                        Decision::Deny
                    })
                    &&& final(self).answered() == u
                    &&& final(self).same_controls(old(self))
                } else {
                    &&& final(self).answered() == old(self).answered()
                    &&& if old(self).reset_pending() {
                        &&& r == (if is_click(event, ButtonId::Front) { Effect::ForgetBond } else { Effect::Nothing })
                        &&& !final(self).reset_pending()
                        &&& final(self).settings() is None
                        &&& final(self).screen() == old(self).screen()
                        &&& final(self).species() == old(self).species()
                    } else if old(self).settings() is Some && is_click(event, ButtonId::Side) {
                        &&& r == Effect::Nothing
                        &&& final(self).settings() is None
                        &&& !final(self).reset_pending()
                        &&& final(self).screen() == old(self).screen()
                        &&& final(self).species() == old(self).species()
                    } else if menu_open || event.gesture == Gesture::LongHold {
                        &&& final(self).screen() == old(self).screen()
                        &&& match menu {
                            MenuOutcome::Selected(MenuEntry::Species) => {
                                &&& r == Effect::PersistSpecies(next_species)
                                &&& final(self).species() == next_species
                                &&& final(self).settings() == Some(MenuEntry::Species)
                                &&& !final(self).reset_pending()
                            },
                            MenuOutcome::Selected(MenuEntry::Unpair) => {
                                &&& r == Effect::Nothing
                                &&& final(self).reset_pending()
                                &&& final(self).settings() == old(self).settings()
                                &&& final(self).species() == old(self).species()
                            },
                            MenuOutcome::Selected(entry) => {
                                &&& r == Effect::Nothing
                                &&& final(self).settings() == Some(entry)
                                &&& !final(self).reset_pending()
                                &&& final(self).species() == old(self).species()
                            },
                            _ => {
                                &&& r == Effect::Nothing
                                &&& final(self).settings() is None
                                &&& !final(self).reset_pending()
                                &&& final(self).species() == old(self).species()
                            },
                        }
                    } else {
                        &&& r == Effect::Nothing
                        &&& final(self).screen() == nav_after(old(self).screen(), event)
                        &&& final(self).settings() == old(self).settings()
                        &&& final(self).reset_pending() == old(self).reset_pending()
                        &&& final(self).species() == old(self).species()
                    }
                }
            }),
    {
        self.now = now;
        let front: bool = event.button == ButtonId::Front && event.gesture == Gesture::Click;
        let side: bool = event.button == ButtonId::Side && event.gesture == Gesture::Click;
        if front || side {
            match self.unanswered_prompt_id() {
                Some(id) => {
                    let decision: Decision = if front {
                        Decision::Once
                    } else {
                        Decision::Deny
                    };
                    self.answered = Some(id.clone());
                    self.tally.answered(front);
                    return Effect::Answer(PermissionResponse { id, decision });
                },
                None => {},
            }
        }
        if self.reset_pending {
            self.reset_pending = false;
            self.settings = None;
            return if front {
                Effect::ForgetBond
            } else {
                Effect::Nothing
            };
        }
        if self.settings.is_some() && side {
            self.settings = None;
            return Effect::Nothing;
        }
        if menu_open || event.gesture == Gesture::LongHold {
            return self.act_on(menu, next_species);
        }
        self.nav.press(event);
        Effect::Nothing
    }

    /// Turn what the menu decided into an overlay change and, where it has one, an effect.
    fn act_on(&mut self, outcome: MenuOutcome, next_species: u8) -> (r: Effect)
        requires
            !old(self).reset_pending(),
        ensures
            final(self).now() == old(self).now(),
            final(self).same_facts(old(self)),
            final(self).snapshot() == old(self).snapshot(),
            final(self).prompt_state() == old(self).prompt_state(),
            final(self).tally() == old(self).tally(),
            final(self).screen() == old(self).screen(),
            match outcome {
                MenuOutcome::Selected(MenuEntry::Species) => {
                    &&& r == Effect::PersistSpecies(next_species)
                    &&& final(self).species() == next_species
                    &&& final(self).settings() == Some(MenuEntry::Species)
                    &&& !final(self).reset_pending()
                },
                MenuOutcome::Selected(MenuEntry::Unpair) => {
                    &&& r == Effect::Nothing
                    &&& final(self).reset_pending()
                    &&& final(self).settings() == old(self).settings()
                    &&& final(self).species() == old(self).species()
                },
                MenuOutcome::Selected(entry) => {
                    &&& r == Effect::Nothing
                    &&& final(self).settings() == Some(entry)
                    &&& !final(self).reset_pending()
                    &&& final(self).species() == old(self).species()
                },
                _ => {
                    &&& r == Effect::Nothing
                    &&& final(self).settings() is None
                    &&& !final(self).reset_pending()
                    &&& final(self).species() == old(self).species()
                },
            },
    {
        match outcome {
            MenuOutcome::Selected(MenuEntry::Species) => {
                self.species = next_species;
                self.settings = Some(MenuEntry::Species);
                Effect::PersistSpecies(next_species)
            },
            MenuOutcome::Selected(MenuEntry::Unpair) => {
                self.reset_pending = true;
                Effect::Nothing
            },
            MenuOutcome::Selected(entry) => {
                self.settings = Some(entry);
                Effect::Nothing
            },
            _ => {
                self.settings = None;
                Effect::Nothing
            },
        }
    }

    /// The whole picture at the current tick. `persona` and `readings` are the creature's own
    /// readings of itself and of the totals; `menu_cursor` is where its menu has the cursor while the menu is open.
    pub fn view(&self, persona: PersonaState, readings: Readings, menu_cursor: Option<u8>) -> (r: BuddyView)
        requires
            fits(self.wall(), self.now()),
        ensures
            r.persona == persona,
            r.species == self.species(),
            r.screen == self.screen(),
            r.overlay == (if self.reset_pending() {
                Overlay::Reset
            } else if self.settings() is Some {
                Overlay::Settings { entry: self.settings()->0 }
            } else {
                match menu_cursor {
                    Some(cursor) => Overlay::Menu { cursor },
                    None => Overlay::Nothing,
                }
            }),
            r.passkey == self.passkey(),
            if self.unanswered() is Some {
                r.prompt matches Some(v) && v.tool@ == self.snapshot().prompt->0.tool && v.hint@
                    == self.snapshot().prompt->0.hint && v.waiting_s == waited_s(
                    self.prompt_since(),
                    self.now(),
                )
            } else {
                r.prompt is None
            },
            r.transcript.held() == kept_entries(self.snapshot().entries),
            r.transcript.whole() == self.snapshot().entries.len(),
            r.stats == (StatsView {
                mood: readings.mood,
                fed: readings.fed,
                energy: readings.energy,
                level: readings.level,
                approvals: self.tally().approvals,
                denials: self.tally().denials,
                naps: self.tally().naps,
                nap_minutes: crate::shell::tally::nap_minutes_of(self.tally().napped_ms),
                tokens_today: self.tally().tokens_today,
            }),
            r.clock.battery_pct == self.battery_pct(),
            r.clock.charging == self.charging(),
            match local_seconds(self.wall(), self.now()) {
                Some(s) => r.clock.time == Some((((s % 86400) / 3600) as u8, (((s % 86400) % 3600) / 60) as u8)),
                None => r.clock.time is None,
            },
            r.device.name@ == self.identity().name@,
            r.device.owner@ == self.identity().owner@,
            r.device.bonded == self.bonded(),
            r.device.linked == (self.last_inbound() matches Some(at) && (if self.now() >= at {
                self.now() - at
            } else {
                0
            }) < LINK_WINDOW_MS),
            r.sessions_running == self.snapshot().running,
            r.sessions_waiting == self.snapshot().waiting,
    {
        BuddyView {
            persona,
            species: self.species,
            screen: self.nav.screen(),
            overlay: self.overlay(menu_cursor),
            passkey: self.passkey,
            prompt: self.prompt_view(),
            transcript: self.transcript(),
            stats: self.tally.stats(readings),
            clock: self.clock(),
            device: self.device(),
            sessions_running: self.sessions_running(),
            sessions_waiting: self.sessions_waiting(),
        }
    }

    /// The screen navigation stands on.
    pub fn current_screen(&self) -> (r: Screen)
        ensures
            r == self.screen(),
    {
        self.nav.screen()
    }

    /// The passkey on the glass, if one is being shown.
    pub fn shown_passkey(&self) -> (r: Option<u32>)
        ensures
            r == self.passkey(),
    {
        self.passkey
    }

    /// How many sessions the host reports running.
    pub fn sessions_running(&self) -> (r: u32)
        ensures
            r == self.snapshot().running,
    {
        self.snapshot.running as u32
    }

    /// How many sessions the host reports waiting.
    pub fn sessions_waiting(&self) -> (r: u32)
        ensures
            r == self.snapshot().waiting,
    {
        self.snapshot.waiting as u32
    }

    /// The creature's species index.
    pub fn species_index(&self) -> (r: u8)
        ensures
            r == self.species(),
    {
        self.species
    }

    /// Which overlay is on top: the innermost open thing. `menu_cursor` is where the creature's
    /// menu has its cursor while it is open.
    pub fn overlay(&self, menu_cursor: Option<u8>) -> (r: Overlay)
        ensures
            r == (if self.reset_pending() {
                Overlay::Reset
            } else if self.settings() is Some {
                Overlay::Settings { entry: self.settings()->0 }
            } else {
                match menu_cursor {
                    Some(cursor) => Overlay::Menu { cursor },
                    None => Overlay::Nothing,
                }
            }),
    {
        if self.reset_pending {
            return Overlay::Reset;
        }
        match self.settings {
            Some(entry) => Overlay::Settings { entry },
            None => match menu_cursor {
                Some(cursor) => Overlay::Menu { cursor },
                None => Overlay::Nothing,
            },
        }
    }

    /// The approval screen's view of the pending prompt — `None` once it has been answered, so
    /// the band goes back to the transcript the instant the owner has decided.
    pub fn prompt_view(&self) -> (r: Option<PromptView>)
        ensures
            if self.unanswered() is Some {
                r matches Some(v) && v.tool@ == self.snapshot().prompt->0.tool && v.hint@
                    == self.snapshot().prompt->0.hint && v.waiting_s == waited_s(
                    self.prompt_since(),
                    self.now(),
                )
            } else {
                r is None
            },
    {
        if self.unanswered_prompt_id().is_none() {
            return None;
        }
        match &self.snapshot.prompt {
            Some(p) => {
                let ms: u64 = self.now.saturating_sub(self.prompt_since);
                let s: u64 = ms / 1000;
                let waiting_s: u32 = if s > 0xFFFF_FFFF {
                    0xFFFF_FFFF
                } else {
                    s as u32
                };
                Some(PromptView { tool: p.tool.clone(), hint: p.hint.clone(), waiting_s })
            },
            None => None,
        }
    }

    /// The transcript, as the band reads it: the newest entries, newest first, and how many
    /// the host holds.
    pub fn transcript(&self) -> (r: Transcript)
        ensures
            r.held() == kept_entries(self.snapshot().entries),
            r.whole() == self.snapshot().entries.len(),
    {
        let mut entries: Vec<&str> = Vec::new();
        let mut i: usize = 0;
        while i < self.snapshot.entries.len()
            invariant
                i <= self.snapshot.entries@.len(),
                entries@.len() == i,
                forall|k: int| 0 <= k < i ==> #[trigger] entries@[k]@ == self.snapshot.entries@[k]@,
            decreases self.snapshot.entries@.len() - i,
        {
            entries.push(self.snapshot.entries[i].as_str());
            i = i + 1;
        }
        proof {
            assert(entries@.map_values(|s: &str| s@) =~= self.snapshot().entries);
        }
        Transcript::oldest_first(entries.as_slice())
    }

    /// The clock screen's readings at the current tick.
    pub fn clock(&self) -> (r: ClockView)
        requires
            fits(self.wall(), self.now()),
        ensures
            r.battery_pct == self.battery_pct(),
            r.charging == self.charging(),
            match local_seconds(self.wall(), self.now()) {
                Some(s) => r.time == Some((((s % 86400) / 3600) as u8, (((s % 86400) % 3600) / 60) as u8)),
                None => r.time is None,
            },
    {
        ClockView { time: self.wall.hour_minute(self.now), battery_pct: self.battery_pct, charging: self.charging }
    }

    /// The info screen's device facts.
    pub fn device(&self) -> (r: DeviceView)
        ensures
            r.name@ == self.identity().name@,
            r.owner@ == self.identity().owner@,
            r.bonded == self.bonded(),
            r.linked == (self.last_inbound() matches Some(at) && (if self.now() >= at {
                self.now() - at
            } else {
                0
            }) < LINK_WINDOW_MS),
    {
        let linked: bool = self.is_linked();
        self.identity.view(self.bonded, linked)
    }
}

/// What [`perform`] did with an effect.
#[derive(PartialEq, Eq, Debug)]
pub enum Performed {
    /// Nothing was asked.
    Nothing,
    /// This line was handed to the notifier, which answered this.
    Sent(String, Result<(), NotifyError>),
    /// The bond was forgotten.
    Forgot,
    /// This species index was stored.
    Stored(u8),
}

/// Carry an effect out through the ports, one call per effect and no other: an answer goes on
/// the wire as its permission line, once, whatever the transport answers; a confirmed reset
/// forgets the bond; a new species is stored; nothing calls no port.
pub fn perform<N: Notifier, B: Bond, T: SpeciesStore>(
    effect: Effect,
    notifier: &mut N,
    bond: &mut B,
    species: &mut T,
) -> (r: Performed)
    ensures
        match effect {
            Effect::Nothing => {
                &&& r is Nothing
                &&& final(notifier).sent() == old(notifier).sent()
                &&& final(bond).forgotten() == old(bond).forgotten()
                &&& final(species).stored() == old(species).stored()
            },
            Effect::Answer(response) => {
                &&& r matches Performed::Sent(line, answer) && line@ == tree_text(response_tree(response@))
                    && final(notifier).sent() == old(notifier).sent().push((line@, answer))
                &&& final(bond).forgotten() == old(bond).forgotten()
                &&& final(species).stored() == old(species).stored()
            },
            Effect::ForgetBond => {
                &&& r is Forgot
                &&& final(notifier).sent() == old(notifier).sent()
                &&& final(bond).forgotten() == old(bond).forgotten() + 1
                &&& final(species).stored() == old(species).stored()
            },
            Effect::PersistSpecies(index) => {
                &&& r == Performed::Stored(index)
                &&& final(notifier).sent() == old(notifier).sent()
                &&& final(bond).forgotten() == old(bond).forgotten()
                &&& final(species).stored() == old(species).stored().push(index)
            },
        },
{
    match effect {
        Effect::Nothing => Performed::Nothing,
        Effect::Answer(response) => {
            let line: String = response.to_json();
            let sent: Result<(), NotifyError> = notifier.notify(line.as_str());
            Performed::Sent(line, sent)
        },
        Effect::ForgetBond => {
            bond.forget();
            Performed::Forgot
        },
        Effect::PersistSpecies(index) => {
            species.store(index);
            Performed::Stored(index)
        },
    }
}

/// Whether two optional ids are the same id.
fn same_id(a: &Option<String>, b: &Option<String>) -> (r: bool)
    ensures
        r == (opt_chars(*a) == opt_chars(*b)),
{
    match (a, b) {
        (Some(x), Some(y)) => str_eq(x.as_str(), y.as_str()),
        (None, None) => true,
        _ => false,
    }
}

/// Whether `s` is the clock screen.
fn same_screen_is_clock(s: Screen) -> (r: bool)
    ensures
        r == (s == Screen::Clock),
{
    matches!(s, Screen::Clock)
}

} // verus!
