use buddy::display::view::{
    BuddyView, DeviceView, InfoPage, MenuEntry, Overlay, PersonaState, PetPage, PromptView, Screen,
    StatsView,
};
use buddy::shell::identity::Identity;
use buddy::shell::nav::{next_info, ButtonEvent, ButtonId, Gesture, Nav};
use buddy::shell::ports::{Bond, Notifier, NotifyError, SpeciesStore};
use buddy::shell::receive::Receiver;
use buddy::shell::state::{
    perform, DeviceState, Effect, MenuOutcome, NapTransition, Performed, LINK_WINDOW_MS,
};
use buddy::shell::tally::{Readings, Tally, MINUTE_MS};
use buddy::shell::wall::{Tick, WallClock, DAY_S};
use buddy::wire::command::Command;
use vstd::prelude::{nat, Seq};
use buddy::wire::inbound::{BuddyEvent, Inbound, Prompt, SnapshotPacket};
use buddy::wire::permission::{Decision, PermissionResponse};

const A_CLICK: ButtonEvent = ButtonEvent { button: ButtonId::Front, gesture: Gesture::Click };
const B_CLICK: ButtonEvent = ButtonEvent { button: ButtonId::Side, gesture: Gesture::Click };
const A_HOLD: ButtonEvent = ButtonEvent { button: ButtonId::Front, gesture: Gesture::LongHold };

fn after(events: &[ButtonEvent]) -> Nav {
    let mut nav: Nav = Nav::new();
    events.iter().for_each(|event: &ButtonEvent| {
        assert!(nav.press(*event) || event.gesture != Gesture::Click)
    });
    nav
}

// ---- nav --------------------------------------------------------------------------------

#[test]
fn a_fresh_buddy_is_at_home() {
    assert_eq!(Nav::new().screen(), Screen::Home);
}

#[test]
fn the_answer_button_does_not_leave_the_home_screen() {
    assert_eq!(after(&[A_CLICK, A_CLICK, A_CLICK]).screen(), Screen::Home);
}

#[test]
fn b_walks_to_the_next_screen() {
    assert_eq!(after(&[B_CLICK]).screen(), Screen::Pet(PetPage::Stats));
}

#[test]
fn b_walks_the_ring_and_returns_home() {
    assert_eq!(after(&[B_CLICK, B_CLICK]).screen(), Screen::Info(InfoPage::About));
    assert_eq!(after(&[B_CLICK, B_CLICK, B_CLICK]).screen(), Screen::Clock);
    assert_eq!(after(&[B_CLICK, B_CLICK, B_CLICK, B_CLICK]).screen(), Screen::Home);
}

#[test]
fn a_turns_the_page_within_a_screen() {
    assert_eq!(after(&[B_CLICK, A_CLICK]).screen(), Screen::Pet(PetPage::HowTo));
    assert_eq!(after(&[B_CLICK, A_CLICK, A_CLICK]).screen(), Screen::Pet(PetPage::Stats));
}

#[test]
fn every_info_page_is_reachable_and_the_last_wraps() {
    assert_eq!(next_info(InfoPage::Credits), InfoPage::About);
    let walked: usize = InfoPage::ALL
        .iter()
        .filter(|page: &&InfoPage| InfoPage::ALL.contains(&next_info(**page)))
        .count();
    assert_eq!(walked, InfoPage::ALL.len());
}

#[test]
fn a_hold_is_left_for_the_menu() {
    let mut nav: Nav = Nav::new();
    assert!(!nav.press(A_HOLD));
    assert_eq!(nav.screen(), Screen::Home);
}

#[test]
fn a_forced_screen_is_shown_and_walked_on_from() {
    let mut nav: Nav = Nav::new();
    nav.show(Screen::Clock);
    assert_eq!(nav.screen(), Screen::Clock);
    nav.press(B_CLICK);
    assert_eq!(nav.screen(), Screen::Home);
}

#[test]
fn b_leaves_an_inner_page_for_the_next_screen_at_its_first_page() {
    let mut nav: Nav = Nav::new();
    nav.show(Screen::Info(InfoPage::Credits));
    nav.press(ButtonEvent::new(ButtonId::Side, Gesture::Click));
    assert_eq!(nav.screen(), Screen::Clock);
    assert!(!nav.press(ButtonEvent::new(ButtonId::Power, Gesture::Click)));
    assert_eq!(nav.screen(), Screen::Clock);
}

// ---- identity ---------------------------------------------------------------------------

fn identity() -> Identity {
    Identity::new("Buddy-4F2A", "0.1.0", "A0:B7:65:4F:2A:11")
}

#[test]
fn a_fresh_stick_has_no_owner() {
    assert!(identity().owner.is_empty());
}

#[test]
fn the_identity_reaches_the_view() {
    let view: DeviceView = identity().view(true, true);
    assert_eq!(view.name.as_str(), "Buddy-4F2A");
    assert_eq!(view.address.as_str(), "A0:B7:65:4F:2A:11");
}

#[test]
fn bonded_and_linked_are_carried_independently() {
    assert!(identity().view(true, false).bonded);
    assert!(!identity().view(true, false).linked);
    assert!(!identity().view(false, true).bonded);
    assert!(identity().view(false, true).linked);
}

// ---- ports ------------------------------------------------------------------------------

#[test]
fn a_notify_error_carries_its_reason() {
    let err: NotifyError = NotifyError::new("link down");
    assert_eq!(err.reason, "link down");
    assert_eq!(err.describe(), "the line was not sent: link down");
    assert_eq!(NotifyError::new(String::from("mtu")).reason, "mtu");
}

// ---- wall -------------------------------------------------------------------------------

const AT_1437_UTC: i64 = 1_700_000_000 - 1_700_000_000 % DAY_S + 14 * 3_600 + 37 * 60;

#[test]
fn an_unsynced_clock_shows_no_time() {
    let clock: WallClock = WallClock::new();
    assert!(!clock.is_synced());
    assert_eq!(clock.hour_minute(10_000), None);
}

#[test]
fn a_sync_reads_back_the_time_it_named() {
    let mut clock: WallClock = WallClock::new();
    clock.sync(AT_1437_UTC, 0, 5_000);
    assert_eq!(clock.hour_minute(5_000), Some((14, 37)));
}

#[test]
fn the_timezone_offset_is_applied() {
    let mut clock: WallClock = WallClock::new();
    clock.sync(AT_1437_UTC, 3_600, 5_000);
    assert_eq!(clock.hour_minute(5_000), Some((15, 37)));
}

#[test]
fn the_clock_runs_between_syncs() {
    let mut clock: WallClock = WallClock::new();
    clock.sync(AT_1437_UTC, 0, 5_000);
    assert_eq!(clock.hour_minute(5_000 + 90 * 60 * 1_000), Some((16, 7)));
}

#[test]
fn the_clock_wraps_at_midnight() {
    let mut clock: WallClock = WallClock::new();
    clock.sync(AT_1437_UTC, 0, 0);
    let ten_hours_later: Tick = 10 * 60 * 60 * 1_000;
    assert_eq!(clock.hour_minute(ten_hours_later), Some((0, 37)));
}

#[test]
fn a_negative_offset_across_midnight_stays_a_real_time() {
    let mut clock: WallClock = WallClock::new();
    clock.sync(AT_1437_UTC - 14 * 3_600, -3_600, 0);
    assert_eq!(clock.hour_minute(0), Some((23, 37)));
}

#[test]
fn the_day_of_week_counts_from_a_thursday_epoch() {
    let mut clock: WallClock = WallClock::new();
    clock.sync(0, 0, 0);
    assert_eq!(clock.hour_and_day(0), Some((0, 4)));
    clock.sync(-1, 0, 0);
    assert_eq!(clock.hour_and_day(0), Some((23, 3)));
    clock.sync(3 * DAY_S + 13 * 3_600, 0, 0);
    assert_eq!(clock.hour_and_day(0), Some((13, 0)));
    assert_eq!(WallClock::new().hour_and_day(0), None);
}

#[test]
fn a_tick_before_the_sync_counts_as_no_time() {
    let mut clock: WallClock = WallClock::new();
    clock.sync(AT_1437_UTC, 0, 5_000);
    assert_eq!(clock.hour_minute(1_000), Some((14, 37)));
}

// ---- receive ----------------------------------------------------------------------------

const PROMPT_LINE: &[u8] = br#"{"waiting":1,"prompt":{"id":"p1","tool":"Bash","hint":"ls -la"}}"#;

fn receiver() -> (Receiver, DeviceState) {
    (Receiver::new(), state())
}

#[test]
fn a_chunk_without_a_terminator_completes_nothing() {
    let (mut receiver, mut state): (Receiver, DeviceState) = receiver();
    assert_eq!(receiver.feed(PROMPT_LINE, 1_000, &mut state).0, 0);
}

#[test]
fn a_terminated_line_reaches_the_state() {
    let (mut receiver, mut state): (Receiver, DeviceState) = receiver();
    assert_eq!(receiver.feed(b"{\"running\":2}\n", 1_000, &mut state).0, 1);
    state.tick(1_000, NapTransition::Nothing);
    assert_eq!(state.sessions_running(), 2);
}

#[test]
fn a_line_split_across_chunks_is_reassembled() {
    let (mut receiver, mut state): (Receiver, DeviceState) = receiver();
    let (head, tail): (&[u8], &[u8]) = PROMPT_LINE.split_at(20);
    assert_eq!(receiver.feed(head, 1_000, &mut state).0, 0);
    assert_eq!(receiver.feed(tail, 1_000, &mut state).0, 0);
    assert_eq!(receiver.feed(b"\n", 1_000, &mut state).0, 1);
    state.tick(1_000, NapTransition::Nothing);
    assert!(state.prompt_view().is_some());
}

#[test]
fn a_malformed_line_is_dropped_and_leaves_the_prompt_alone() {
    let (mut receiver, mut state): (Receiver, DeviceState) = receiver();
    receiver.feed(PROMPT_LINE, 1_000, &mut state);
    receiver.feed(b"\n", 1_000, &mut state);
    assert_eq!(receiver.feed(b"{not json at all}\n", 2_000, &mut state).0, 0);
    assert_eq!(receiver.feed(b"{\"time\":[1]}\n", 3_000, &mut state).0, 0);
    state.tick(3_000, NapTransition::Nothing);
    assert!(
        state.prompt_view().is_some(),
        "a malformed line reached the snapshot merge and cleared the prompt"
    );
}

#[test]
fn two_lines_in_one_chunk_both_land() {
    let (mut receiver, mut state): (Receiver, DeviceState) = receiver();
    assert_eq!(receiver.feed(b"{\"running\":1}\n{\"running\":7}\n", 1_000, &mut state).0, 2);
    state.tick(1_000, NapTransition::Nothing);
    assert_eq!(state.sessions_running(), 7);
}

#[test]
fn an_overrunning_line_drops_the_chunk() {
    let (mut receiver, mut state): (Receiver, DeviceState) = receiver();
    let mut long: Vec<u8> = vec![b'{'; 1_100];
    long.push(b'\n');
    assert_eq!(receiver.feed(&long, 1_000, &mut state).0, 0);
    state.tick(1_000, NapTransition::Nothing);
    assert!(!state.is_linked());
}

#[test]
fn a_time_sync_past_the_clock_is_dropped() {
    let (mut receiver, mut state): (Receiver, DeviceState) = receiver();
    assert_eq!(receiver.feed(b"{\"time\":[9223372036854775807,3600]}\n", 1_000, &mut state).0, 0);
    assert_eq!(receiver.feed(b"{\"time\":[1700000000,3600]}\n", 1_000, &mut state).0, 1);
}

// ---- device state -----------------------------------------------------------------------

fn state() -> DeviceState {
    DeviceState::new(Identity::new("Buddy-4F2A", "0.1.0", "A0:B7:65:4F:2A:11"), 0)
}

fn with_prompt(id: &str) -> Inbound {
    Inbound::Snapshot(SnapshotPacket {
        running: Some(1),
        prompt: Some(Prompt {
            id: id.to_string(),
            tool: "Bash".to_string(),
            hint: "cargo test --workspace".to_string(),
        }),
        ..SnapshotPacket::default()
    })
}

fn press(state: &mut DeviceState, event: ButtonEvent, now: Tick) -> Effect {
    state.press(event, now, false, MenuOutcome::Nothing, 0)
}

#[test]
fn a_fresh_stick_is_unlinked_and_quiet() {
    let state: DeviceState = state();
    assert!(!state.is_linked());
    assert_eq!(state.current_screen(), Screen::Home);
    assert!(state.prompt_view().is_none());
}

#[test]
fn a_prompt_reaches_the_glass() {
    let mut state: DeviceState = state();
    state.apply(with_prompt("p1"), 1_000);
    state.tick(1_000, NapTransition::Nothing);
    assert_eq!(state.prompt_view().expect("a prompt is pending").tool.as_str(), "Bash");
}

#[test]
fn a_allows_and_b_denies_the_pending_prompt() {
    let mut allow: DeviceState = state();
    allow.apply(with_prompt("p1"), 1_000);
    assert_eq!(
        press(&mut allow, A_CLICK, 2_000),
        Effect::Answer(PermissionResponse { id: "p1".to_string(), decision: Decision::Once })
    );

    let mut deny: DeviceState = state();
    deny.apply(with_prompt("p1"), 1_000);
    assert_eq!(
        press(&mut deny, B_CLICK, 2_000),
        Effect::Answer(PermissionResponse { id: "p1".to_string(), decision: Decision::Deny })
    );
}

#[test]
fn a_prompt_is_answered_only_once() {
    let mut state: DeviceState = state();
    state.apply(with_prompt("p1"), 1_000);
    assert!(matches!(press(&mut state, A_CLICK, 2_000), Effect::Answer(_)));
    assert_eq!(press(&mut state, A_CLICK, 2_100), Effect::Nothing);
    assert!(state.prompt_view().is_none(), "the band did not come back");
}

#[test]
fn a_new_prompt_is_answerable_again() {
    let mut state: DeviceState = state();
    state.apply(with_prompt("p1"), 1_000);
    press(&mut state, A_CLICK, 2_000);
    state.apply(with_prompt("p2"), 3_000);
    assert!(matches!(press(&mut state, A_CLICK, 4_000), Effect::Answer(_)));
}

#[test]
fn the_same_prompt_again_stays_answered() {
    let mut state: DeviceState = state();
    state.apply(with_prompt("p1"), 1_000);
    press(&mut state, A_CLICK, 2_000);
    state.apply(with_prompt("p1"), 3_000);
    assert_eq!(press(&mut state, A_CLICK, 4_000), Effect::Nothing);
}

#[test]
fn keepalive_traffic_does_not_disturb_a_pending_prompt() {
    let mut state: DeviceState = state();
    state.apply(with_prompt("p1"), 1_000);
    state.apply(Inbound::Event(BuddyEvent::Turn), 2_000);
    state.apply(Inbound::Time { epoch: 1_700_000_000, tz_offset_s: 0 }, 3_000);
    state.apply(Inbound::Command(Command::Status), 4_000);
    state.tick(5_000, NapTransition::Nothing);
    assert_eq!(state.prompt_view().expect("the prompt survived").tool.as_str(), "Bash");
}

#[test]
fn a_snapshot_without_a_prompt_clears_it() {
    let mut state: DeviceState = state();
    state.apply(with_prompt("p1"), 1_000);
    state.apply(Inbound::Snapshot(SnapshotPacket::default()), 2_000);
    state.tick(2_000, NapTransition::Nothing);
    assert!(state.prompt_view().is_none());
}

#[test]
fn the_counter_measures_from_the_prompts_arrival() {
    let mut state: DeviceState = state();
    state.apply(with_prompt("p1"), 10_000);
    state.tick(14_000, NapTransition::Nothing);
    assert_eq!(state.prompt_view().expect("pending").waiting_s, 4);
}

#[test]
fn the_link_lapses_after_the_window() {
    let mut state: DeviceState = state();
    state.apply(Inbound::Event(BuddyEvent::Turn), 1_000);
    state.tick(1_000, NapTransition::Nothing);
    assert!(state.is_linked());
    assert!(state.device().linked);
    state.tick(1_000 + LINK_WINDOW_MS, NapTransition::Nothing);
    assert!(!state.is_linked());
}

#[test]
fn a_prompt_outranks_an_open_menu() {
    let mut state: DeviceState = state();
    state.press(A_HOLD, 500, false, MenuOutcome::Opened, 0);
    assert!(matches!(state.overlay(Some(0)), Overlay::Menu { .. }));
    state.apply(with_prompt("p1"), 1_000);
    assert!(matches!(state.press(A_CLICK, 2_000, true, MenuOutcome::Moved, 0), Effect::Answer(_)));
}

fn open_reset(state: &mut DeviceState) {
    state.press(A_HOLD, 1_000, false, MenuOutcome::Opened, 0);
    state.press(A_CLICK, 1_100, true, MenuOutcome::Moved, 0);
    state.press(A_CLICK, 1_200, true, MenuOutcome::Moved, 0);
    state.press(A_CLICK, 1_300, true, MenuOutcome::Moved, 0);
    state.press(B_CLICK, 1_400, true, MenuOutcome::Selected(MenuEntry::Unpair), 0);
    assert!(matches!(state.overlay(Some(3)), Overlay::Reset));
}

#[test]
fn the_reset_confirmation_defaults_to_cancelling() {
    let mut confirm: DeviceState = state();
    open_reset(&mut confirm);
    assert_eq!(press(&mut confirm, A_CLICK, 4_000), Effect::ForgetBond);

    let mut cancel: DeviceState = state();
    open_reset(&mut cancel);
    assert_eq!(press(&mut cancel, B_CLICK, 4_000), Effect::Nothing);
    assert!(!matches!(cancel.overlay(Some(3)), Overlay::Reset));
}

#[test]
fn selecting_the_creature_entry_cycles_and_persists() {
    let mut state: DeviceState = state();
    state.press(A_HOLD, 1_000, false, MenuOutcome::Opened, 0);
    assert!(matches!(
        state.press(B_CLICK, 1_100, true, MenuOutcome::Selected(MenuEntry::Species), 1),
        Effect::PersistSpecies(_)
    ));
    assert_eq!(state.species_index(), 1);
    assert_eq!(state.overlay(Some(0)), Overlay::Settings { entry: MenuEntry::Species });
    assert_eq!(press(&mut state, B_CLICK, 1_200), Effect::Nothing);
    assert_eq!(state.overlay(None), Overlay::Nothing);
}

#[test]
fn a_passkey_takes_over_the_glass() {
    let mut state: DeviceState = state();
    state.apply(with_prompt("p1"), 1_000);
    state.show_passkey(Some(482_913));
    state.tick(1_000, NapTransition::Nothing);
    assert_eq!(state.shown_passkey(), Some(482_913));
}

#[test]
fn docking_shows_the_clock_and_undocking_gives_it_back() {
    let mut state: DeviceState = state();
    state.power(true, None);
    assert_eq!(state.current_screen(), Screen::Clock);
    assert!(state.clock().charging);
    state.power(false, None);
    assert_eq!(state.current_screen(), Screen::Home);
}

#[test]
fn undocking_does_not_move_a_screen_the_owner_chose() {
    let mut state: DeviceState = state();
    state.power(true, None);
    press(&mut state, B_CLICK, 1_000);
    let chosen: Screen = state.current_screen();
    state.power(false, None);
    assert_eq!(state.current_screen(), chosen);
}

#[test]
fn the_transcript_reaches_the_glass_newest_first() {
    let mut state: DeviceState = state();
    state.apply(
        Inbound::Snapshot(SnapshotPacket {
            entries: Some(vec!["older".to_string(), "newer".to_string()]),
            ..SnapshotPacket::default()
        }),
        1_000,
    );
    state.tick(1_000, NapTransition::Nothing);
    assert_eq!(state.transcript().newest_first()[0].as_str(), "newer");
    assert_eq!(state.transcript().total(), 2);
}

#[test]
fn host_commands_rename_and_reassign_the_stick() {
    let mut state: DeviceState = state();
    state.apply(Inbound::Command(Command::Name("Pip".to_string())), 1_000);
    state.apply(Inbound::Command(Command::Owner("Ada".to_string())), 1_000);
    state.apply(Inbound::Command(Command::Species(4)), 1_000);
    let device: DeviceView = state.device();
    assert_eq!((device.name.as_str(), device.owner.as_str()), ("Pip", "Ada"));
    assert_eq!(state.species_index(), 4);
}

#[test]
fn a_time_sync_sets_the_clock() {
    let mut state: DeviceState = state();
    assert_eq!(state.clock().time, None);
    state.apply(Inbound::Time { epoch: AT_1437_UTC, tz_offset_s: 0 }, 1_000);
    state.tick(1_000, NapTransition::Nothing);
    assert_eq!(state.clock().time, Some((14, 37)));
}

#[test]
fn a_snapshot_hands_its_token_total_on() {
    let mut state: DeviceState = state();
    let packet: SnapshotPacket = SnapshotPacket { tokens: Some(1_234), ..SnapshotPacket::default() };
    assert_eq!(state.apply(Inbound::Snapshot(packet), 1_000), Some(1_234));
    assert_eq!(state.apply(Inbound::Event(BuddyEvent::Turn), 1_000), None);
}

// ---- effects ----------------------------------------------------------------------------

#[derive(Default)]
struct Ports {
    lines: Vec<String>,
    forgotten: u32,
    stored: Vec<u8>,
    refuse: bool,
}

impl Notifier for Ports {
    fn sent(&self) -> Seq<(Seq<char>, Result<(), NotifyError>)> {
        unreachable!("a log for proofs, never read at run time")
    }

    fn notify(&mut self, line: &str) -> Result<(), NotifyError> {
        self.lines.push(line.to_string());
        if self.refuse {
            Err(NotifyError::new("not connected"))
        } else {
            Ok(())
        }
    }
}

impl Bond for Ports {
    fn forgotten(&self) -> nat {
        unreachable!("a log for proofs, never read at run time")
    }

    fn forget(&mut self) {
        self.forgotten += 1;
    }
}

impl SpeciesStore for Ports {
    fn stored(&self) -> Seq<u8> {
        unreachable!("a log for proofs, never read at run time")
    }

    fn store(&mut self, index: u8) {
        self.stored.push(index);
    }
}

fn perform_on(effect: Effect, ports: &mut Ports) -> Performed {
    let mut notifier: Ports = std::mem::take(ports);
    let mut bond: Ports = Ports::default();
    let mut species: Ports = Ports::default();
    let done: Performed = perform(effect, &mut notifier, &mut bond, &mut species);
    notifier.forgotten += bond.forgotten;
    notifier.stored.extend(species.stored);
    *ports = notifier;
    done
}

#[test]
fn an_answer_goes_on_the_wire_as_its_permission_line() {
    let mut ports: Ports = Ports::default();
    let effect: Effect =
        Effect::Answer(PermissionResponse { id: "p1".to_string(), decision: Decision::Deny });
    let done: Performed = perform_on(effect, &mut ports);
    let line: &str = r#"{"cmd":"permission","id":"p1","decision":"deny"}"#;
    assert_eq!(done, Performed::Sent(line.to_string(), Ok(())));
    assert_eq!(ports.lines, [line.to_string()]);
    assert_eq!((ports.forgotten, ports.stored.len()), (0, 0));
}

#[test]
fn a_refused_answer_is_reported_not_retried() {
    let mut ports: Ports = Ports { refuse: true, ..Ports::default() };
    let effect: Effect =
        Effect::Answer(PermissionResponse { id: "p1".to_string(), decision: Decision::Once });
    let done: Performed = perform_on(effect, &mut ports);
    assert!(matches!(done, Performed::Sent(_, Err(_))));
    assert_eq!(ports.lines.len(), 1);
}

#[test]
fn a_confirmed_reset_forgets_and_a_species_is_stored() {
    let mut ports: Ports = Ports::default();
    assert_eq!(perform_on(Effect::ForgetBond, &mut ports), Performed::Forgot);
    assert_eq!(ports.forgotten, 1);
    assert_eq!(perform_on(Effect::PersistSpecies(3), &mut ports), Performed::Stored(3));
    assert_eq!(ports.stored, [3]);
    assert_eq!(perform_on(Effect::Nothing, &mut ports), Performed::Nothing);
    assert!(ports.lines.is_empty());
    assert_eq!((ports.forgotten, ports.stored.len()), (1, 1));
}

#[test]
fn the_whole_picture_is_read_at_the_current_tick() {
    let mut state: DeviceState = state();
    let fresh: BuddyView = state.view(PersonaState::Idle, READINGS, None);
    assert_eq!(fresh.screen, Screen::Home);
    assert_eq!(fresh.overlay, Overlay::Nothing);
    assert!(fresh.prompt.is_none());
    assert!(fresh.shows_creature());
    state.apply(with_prompt("p1"), 1_000);
    state.tick(3_000, NapTransition::Nothing);
    let asking: BuddyView = state.view(PersonaState::Attention, READINGS, Some(1));
    assert_eq!(asking.prompt.as_ref().map(|p: &PromptView| p.waiting_s), Some(2));
    assert_eq!(asking.overlay, Overlay::Menu { cursor: 1 });
    assert_eq!(asking.sessions_running, 1);
    assert!(asking.device.linked);
    state.show_passkey(Some(482_913));
    assert!(!state.view(PersonaState::Idle, READINGS, None).shows_creature());
}

// ---- tally ------------------------------------------------------------------------------

const READINGS: Readings = Readings { mood: 3, fed: 6, energy: 4, level: 7 };

#[test]
fn approvals_and_denials_are_counted_apart() {
    let mut tally: Tally = Tally::new();
    tally.answered(true);
    tally.answered(false);
    assert_eq!(tally.approvals, 1);
    assert_eq!(tally.denials, 1);
}

#[test]
fn a_nap_is_counted_and_its_length_added() {
    let mut tally: Tally = Tally::new();
    tally.nap_began(1_000);
    tally.nap_ended(1_000 + 90 * MINUTE_MS);
    let view: StatsView = tally.stats(READINGS);
    assert_eq!(view.naps, 1);
    assert_eq!(view.nap_minutes, 90);
    assert_eq!((view.mood, view.fed, view.energy, view.level), (3, 6, 4, 7));
}

#[test]
fn a_nap_end_with_no_start_still_counts() {
    let mut tally: Tally = Tally::new();
    tally.nap_ended(5_000);
    assert_eq!(tally.naps, 1);
    assert_eq!(tally.stats(READINGS).nap_minutes, 0);
}

#[test]
fn credits_accumulate_and_saturate() {
    let mut tally: Tally = Tally::new();
    tally.credit(49_999);
    tally.credit(1);
    assert_eq!(tally.tokens, 50_000);
    tally.credit(u32::MAX);
    assert_eq!(tally.tokens, u32::MAX);
}

#[test]
fn answers_and_naps_reach_the_stats_page() {
    let mut state: DeviceState = state();
    state.apply(with_prompt("p1"), 1_000);
    press(&mut state, A_CLICK, 2_000);
    state.apply(with_prompt("p2"), 3_000);
    press(&mut state, B_CLICK, 4_000);
    state.tick(5_000, NapTransition::Entered);
    state.tick(5_000 + 30 * MINUTE_MS, NapTransition::Left);
    let stats: StatsView = state.view(PersonaState::Idle, READINGS, None).stats;
    assert_eq!((stats.approvals, stats.denials, stats.naps, stats.nap_minutes), (1, 1, 1, 30));
}

#[test]
fn a_snapshot_with_a_token_total_updates_today() {
    let mut state: DeviceState = state();
    let packet: SnapshotPacket =
        SnapshotPacket { tokens: Some(900), tokens_today: Some(250), ..SnapshotPacket::default() };
    assert_eq!(state.apply(Inbound::Snapshot(packet), 1_000), Some(900));
    state.credit(900);
    assert_eq!(state.view(PersonaState::Idle, READINGS, None).stats.tokens_today, 250);
}

#[test]
fn host_commands_and_time_syncs_arriving_on_the_link_reach_the_state() {
    let (mut receiver, mut state): (Receiver, DeviceState) = receiver();
    let chunk: &[u8] =
        b"{\"cmd\":\"name\",\"name\":\"Pip\"}\n{\"cmd\":\"species\",\"idx\":2}\n{\"time\":[1700000000,0]}\n";
    assert_eq!(receiver.feed(chunk, 1_000, &mut state).0, 3);
    assert_eq!(state.device().name.as_str(), "Pip");
    assert_eq!(state.species_index(), 2);
    state.tick(1_000, NapTransition::Nothing);
    assert!(state.clock().time.is_some());
}

#[test]
fn the_token_totals_a_chunk_carried_are_handed_on() {
    let (mut receiver, mut state): (Receiver, DeviceState) = receiver();
    let chunk: &[u8] = b"{\"tokens\":10}\n{\"running\":1}\n{\"tokens\":25}\n";
    assert_eq!(receiver.feed(chunk, 1_000, &mut state), (3, vec![10, 25]));
}
