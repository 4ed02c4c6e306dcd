use buddy::display::approval::Waited;
use buddy::display::backdrop::{behind, Rect};
use buddy::display::clock::{battery_tone, time_tone, Power, Time};
use buddy::display::layout::{
    canvas_size, landscape, portrait, FieldAlign, Layout, Point, ScreenRotation, Size, CELL_HEIGHT,
    CELL_WIDTH, ROW_PITCH, SPRITE_EXTENT, SPRITE_SCALE, SPRITE_SIZE,
};
use buddy::display::info::{bluetooth_fields, device_fields, fields, FieldRow, BUTTONS};
use buddy::display::hud::{hud_band, thumb_height, Band, BandRow};
use buddy::display::meter::width;
use buddy::display::pet::{HOW_TO, count_lines, gauge_rows, stats_rows, stats_title, ENERGY_CELLS, FED_CELLS, MOOD_CELLS};
use buddy::display::overlay::{entry_word, menu_rows, reset_rows, settings_rows, window_start};
use buddy::display::page::{body_lines, page_rows, Row, Tone};
use buddy::display::status::{capped, persona_word};
use buddy::display::screen::{compose, Frame};
use buddy::display::units::{Compact, Span, HOUR_CAP};
use buddy::display::view::{
    ClockView, DeviceView, MenuEntry, Overlay, PersonaState, PromptView, Screen, StatsView, Transcript,
    TRANSCRIPT_SLOTS,
};
use buddy::display::wrap::{is_whitespace, wrap, Cut};

const COLS: usize = 24;

fn lines(text: &str, cols: usize) -> Vec<String> {
    wrap(text, cols).into_lines()
}

// ---- units ------------------------------------------------------------------------------

#[test]
fn a_count_reads_plainly_then_in_thousands_then_in_millions() {
    assert_eq!(Compact(0).to_string(), "0");
    assert_eq!(Compact(847).to_string(), "847");
    assert_eq!(Compact(999).to_string(), "999");
    assert_eq!(Compact(1_000).to_string(), "1k");
    assert_eq!(Compact(128_400).to_string(), "128k");
    assert_eq!(Compact(1_000_000).to_string(), "1M");
    assert_eq!(Compact(u32::MAX).to_string(), "999M");
}

#[test]
fn a_count_never_claims_a_milestone_it_has_not_reached() {
    assert_eq!(Compact(999_999).to_string(), "999k");
}

#[test]
fn a_span_reads_in_minutes_then_in_hours() {
    assert_eq!(Span(0).to_string(), "0m");
    assert_eq!(Span(14).to_string(), "14m");
    assert_eq!(Span(59).to_string(), "59m");
    assert_eq!(Span(60).to_string(), "1h00m");
    assert_eq!(Span(134).to_string(), "2h14m");
}

#[test]
fn a_span_of_days_keeps_counting_hours() {
    assert_eq!(Span(60 * 60).to_string(), "60h00m");
}

#[test]
fn a_span_past_the_field_says_so() {
    assert_eq!(Span(HOUR_CAP * 60).to_string(), "999h00m");
    assert_eq!(Span((HOUR_CAP + 1) * 60).to_string(), "999h+");
    assert_eq!(Span(u32::MAX).to_string(), "999h+");
}

// ---- wrap -------------------------------------------------------------------------------

#[test]
fn empty_text_yields_no_lines() {
    assert!(lines("", COLS).is_empty());
}

#[test]
fn no_columns_yields_no_lines() {
    assert!(lines("anything at all", 0).is_empty());
}

#[test]
fn text_that_fits_is_one_line() {
    assert_eq!(lines("Bash: ls -la", COLS), ["Bash: ls -la"]);
}

#[test]
fn text_exactly_at_the_column_count_is_one_line() {
    let exact: &str = "123456789012345678901234";
    assert_eq!(exact.len(), COLS);
    assert_eq!(lines(exact, COLS), [exact]);
}

#[test]
fn a_sentence_breaks_at_the_last_space_that_fits() {
    assert_eq!(
        lines("Write the design notes into the bead", COLS),
        ["Write the design notes", "into the bead"]
    );
}

#[test]
fn a_word_longer_than_the_line_is_hard_split() {
    assert_eq!(
        lines("/home/elendal/code/m5/stick-c-plus/justfile", COLS),
        ["/home/elendal/code/m5/st", "ick-c-plus/justfile"]
    );
}

#[test]
fn a_run_of_spaces_does_not_produce_an_empty_line() {
    assert_eq!(lines("alpha                         beta", COLS), ["alpha", "beta"]);
}

#[test]
fn a_cut_value_fits_its_field_and_stays_a_string() {
    assert_eq!(Cut("Bash", 8).to_string(), "Bash");
    assert_eq!(Cut("WebFetch and more", 8).to_string(), "WebFetch");
    assert_eq!(Cut("aaaaaa\u{20AC}", 8).to_string(), "aaaaaa");
    assert_eq!(Cut("Bash", 0).to_string(), "");
}

#[test]
fn wrapping_counts_characters_not_bytes() {
    assert_eq!(lines("ééééé ééééé", 5), ["ééééé", "ééééé"]);
    assert_eq!(lines("\u{3000}  lead\ttab", 4), ["lead", "tab"]);
}

#[test]
fn no_line_is_wider_than_the_columns_and_no_ink_is_lost() {
    let text: &str = "the quick  brown fox jumps over the lazy dog supercalifragilistic x";
    for cols in 1..30 {
        let got: Vec<String> = lines(text, cols);
        assert!(got.iter().all(|l: &String| !l.is_empty() && l.chars().count() <= cols));
        let joined: String = got.concat().chars().filter(|c: &char| !c.is_whitespace()).collect();
        let expected: String = text.chars().filter(|c: &char| !c.is_whitespace()).collect();
        assert_eq!(joined, expected);
    }
}

#[test]
fn a_space_just_after_a_full_line_is_the_break() {
    assert_eq!(lines("ab cd ef", 5), ["ab cd", "ef"]);
    assert_eq!(lines("abcde fgh", 5), ["abcde", "fgh"]);
}

#[test]
fn each_line_is_a_piece_of_the_input_in_order() {
    let text: &str = "one  two three\tfour five six seven";
    for cols in 1..20 {
        let got: Vec<String> = lines(text, cols);
        assert!(got.len() <= text.chars().count());
        let mut from: usize = 0;
        for l in &got {
            let at: usize = text[from..].find(l.as_str()).unwrap() + from;
            assert!(!l.starts_with(char::is_whitespace));
            from = at + l.len();
        }
    }
}

#[test]
fn only_spaces_are_lost_when_spaces_are_the_only_blanks() {
    let text: &str = "alpha beta  gamma delta epsilon";
    for cols in 1..12 {
        let got: String = lines(text, cols).concat().chars().filter(|c: &char| *c != ' ').collect();
        let expected: String = text.chars().filter(|c: &char| *c != ' ').collect();
        assert_eq!(got, expected);
    }
}

#[test]
fn whitespace_is_unicode_whitespace() {
    for c in ['\t', '\n', ' ', '\u{85}', '\u{a0}', '\u{2003}', '\u{3000}', 'a', '_', '\u{200b}'] {
        assert_eq!(is_whitespace(c), c.is_whitespace());
    }
}

#[test]
fn wrap_yields_lines_one_call_at_a_time() {
    let mut it = wrap("one two three", 8);
    assert_eq!(it.next(), Some("one two".to_string()));
    assert_eq!(it.next(), Some("three".to_string()));
    assert_eq!(it.next(), None);
    assert_eq!(it.next(), None);
}

// ---- view -------------------------------------------------------------------------------

#[test]
fn an_empty_transcript_is_empty() {
    let transcript: Transcript = Transcript::oldest_first(&[]);
    assert!(transcript.is_empty());
    assert_eq!(transcript.total(), 0);
    assert!(transcript.newest_first().is_empty());
}

#[test]
fn one_entry_is_the_newest_entry() {
    let transcript: Transcript = Transcript::oldest_first(&["ran the tests"]);
    assert_eq!(transcript.newest_first()[0].as_str(), "ran the tests");
    assert_eq!(transcript.total(), 1);
}

#[test]
fn the_wire_order_is_reversed_so_index_zero_is_newest() {
    let transcript: Transcript = Transcript::oldest_first(&["first", "second", "third"]);
    assert_eq!(transcript.newest_first()[0].as_str(), "third");
    assert_eq!(transcript.newest_first()[2].as_str(), "first");
}

#[test]
fn a_long_transcript_keeps_the_newest_and_still_counts_the_rest() {
    let transcript: Transcript = Transcript::oldest_first(&["a", "b", "c", "d", "e", "f", "g", "h"]);
    assert_eq!(transcript.newest_first().len(), TRANSCRIPT_SLOTS);
    assert_eq!(transcript.newest_first()[0].as_str(), "h");
    assert_eq!(transcript.newest_first()[3].as_str(), "e");
    assert_eq!(transcript.total(), 8);
}

#[test]
fn a_prompt_turns_hot_at_ten_seconds() {
    let prompt = |waiting_s: u32| PromptView {
        tool: "Bash".to_string(),
        hint: "rm -rf build".to_string(),
        waiting_s,
    };
    assert!(!prompt(9).is_hot());
    assert!(prompt(10).is_hot());
}

#[test]
fn the_overlays_rank_by_how_far_in_they_are() {
    assert!(Overlay::Reset.priority() > Overlay::Settings { entry: MenuEntry::Unpair }.priority());
    assert!(Overlay::Settings { entry: MenuEntry::Unpair }.priority() > Overlay::Menu { cursor: 0 }.priority());
    assert!(Overlay::Menu { cursor: 0 }.priority() > Overlay::Nothing.priority());
    assert!(!Overlay::Nothing.is_open());
    assert!(Overlay::Reset.is_open());
}

// ---- overlay, meter, status -------------------------------------------------------------

#[test]
fn the_window_always_contains_the_cursor() {
    assert_eq!(window_start(4, 5, 5), 0);
    assert_eq!(window_start(0, 3, 5), 0);
    assert_eq!(window_start(2, 3, 5), 0);
    assert_eq!(window_start(3, 3, 5), 1);
    assert_eq!(window_start(4, 3, 5), 2);
    assert_eq!(window_start(9, 3, 5), 2);
}

#[test]
fn every_menu_entry_has_a_word() {
    assert_eq!(entry_word(MenuEntry::Species), "Creature");
    assert_eq!(entry_word(MenuEntry::Owner), "Owner");
    assert_eq!(entry_word(MenuEntry::Status), "Status");
    assert_eq!(entry_word(MenuEntry::Unpair), "Unpair");
    assert_eq!(entry_word(MenuEntry::Close), "Close");
}

#[test]
fn the_declared_width_is_where_the_meter_ends() {
    assert_eq!(width(0), 0);
    assert_eq!(width(1), 8);
    assert_eq!(width(5), 52);
}

#[test]
fn every_moods_word_fits_the_narrow_canvas() {
    for persona in [
        PersonaState::Sleep,
        PersonaState::Idle,
        PersonaState::Busy,
        PersonaState::Attention,
        PersonaState::Celebrate,
        PersonaState::Dizzy,
        PersonaState::Heart,
    ] {
        assert!(persona_word(persona).chars().count() <= 13);
    }
    assert_eq!(persona_word(PersonaState::Attention), "WAITING");
}

#[test]
fn a_session_count_saturates_at_two_digits() {
    assert_eq!(capped(0), 0);
    assert_eq!(capped(99), 99);
    assert_eq!(capped(100), 99);
}

// ---- readings ---------------------------------------------------------------------------

#[test]
fn the_elapsed_reading_stays_short() {
    assert_eq!(Waited(0).to_string(), "0s");
    assert_eq!(Waited(99).to_string(), "99s");
    assert_eq!(Waited(100).to_string(), "1m");
    assert_eq!(Waited(3_599).to_string(), "59m");
    assert_eq!(Waited(u32::MAX).to_string(), "99m");
}

#[test]
fn an_unsynced_clock_reads_dashes_not_midnight() {
    let clock: ClockView = ClockView { time: None, battery_pct: None, charging: false };
    assert_eq!(Time(&clock).to_string(), "--:--");
    let clock: ClockView = ClockView { time: Some((7, 5)), battery_pct: None, charging: false };
    assert_eq!(Time(&clock).to_string(), "07:05");
    let clock: ClockView = ClockView { time: Some((200, 200)), battery_pct: None, charging: false };
    assert_eq!(Time(&clock).to_string(), "23:59");
}

#[test]
fn a_board_with_no_gauge_says_only_what_it_knows() {
    let at = |battery_pct: Option<u8>, charging: bool| ClockView { time: None, battery_pct, charging };
    assert_eq!(Power(&at(None, true)).to_string(), "CHARGING");
    assert_eq!(Power(&at(None, false)).to_string(), "ON BATTERY");
    assert_eq!(Power(&at(Some(82), true)).to_string(), "82% CHG");
    assert_eq!(Power(&at(Some(250), false)).to_string(), "100%");
}

// ---- layout -----------------------------------------------------------------------------

#[test]
fn each_rotation_draws_through_the_layout_for_its_shape() {
    assert_eq!(Layout::for_rotation(ScreenRotation::Deg0), landscape());
    assert_eq!(Layout::for_rotation(ScreenRotation::Deg180), landscape());
    assert_eq!(Layout::for_rotation(ScreenRotation::Deg90), portrait());
    assert_eq!(Layout::for_rotation(ScreenRotation::Deg270), portrait());
}

#[test]
fn the_portrait_canvas_is_the_landscape_one_turned() {
    assert_eq!(portrait().canvas.width, landscape().canvas.height);
    assert_eq!(portrait().canvas.height, landscape().canvas.width);
    assert_eq!(canvas_size(ScreenRotation::Deg90), portrait().canvas);
}

#[test]
fn each_shape_claims_the_columns_its_canvas_holds() {
    assert_eq!(landscape().cols, 24);
    assert_eq!(portrait().cols, 13);
    for layout in [landscape(), portrait()] {
        let held: u32 = layout.canvas.width / CELL_WIDTH;
        assert!(layout.cols as u32 <= held);
    }
}

#[test]
fn both_shapes_have_a_transcript_band_and_portrait_has_the_deeper_one() {
    assert_eq!(landscape().band_rows(), 3);
    assert_eq!(portrait().band_rows(), 6);
    assert!(portrait().band_rows() > landscape().band_rows());
}

#[test]
fn the_scroll_indicator_takes_one_column_inside_the_canvas() {
    for layout in [landscape(), portrait()] {
        assert_eq!(layout.band_cols(), layout.cols - 1);
        assert!((layout.scroll_x() as u32) < layout.canvas.width);
    }
}

#[test]
fn landscape_splits_by_column_and_portrait_by_row() {
    let (l, p): (Layout, Layout) = (landscape(), portrait());
    assert!(
        l.status_origin.x >= l.creature_origin.x + SPRITE_EXTENT as i32,
        "landscape stands the status beside the creature"
    );
    assert!(
        p.status_origin.y >= p.creature_origin.y + SPRITE_EXTENT as i32,
        "portrait stands the status below the creature"
    );
}

#[test]
fn only_the_stacked_shape_centres_its_text() {
    assert_eq!(landscape().align, FieldAlign::Left);
    assert_eq!(portrait().align, FieldAlign::Centred);
}

#[test]
fn the_creature_is_the_same_size_in_both_shapes() {
    assert_eq!(SPRITE_EXTENT, 60);
    assert_eq!(SPRITE_EXTENT, SPRITE_SIZE * SPRITE_SCALE);
    for layout in [landscape(), portrait()] {
        assert!(layout.creature_origin.x as u32 + SPRITE_EXTENT <= layout.canvas.width);
        assert!(layout.creature_origin.y as u32 + SPRITE_EXTENT <= layout.canvas.height);
    }
}

#[test]
fn the_row_grid_is_uniform_and_ends_on_the_canvas() {
    let l: Layout = landscape();
    assert_eq!(l.row_y(0), l.top);
    assert_eq!(l.row_y(2) - l.row_y(1), ROW_PITCH);
    assert_eq!(l.row_origin(1), Point { x: 0, y: 25 });
    assert_eq!(l.status_row(1), Point { x: 70, y: 29 });
    for layout in [landscape(), portrait()] {
        let last_bottom: u32 = layout.row_y(layout.rows - 1) as u32 + CELL_HEIGHT;
        assert!(last_bottom <= layout.canvas.height);
    }
}

#[test]
fn both_shapes_and_their_insets_pass_the_check() {
    for layout in [landscape(), portrait()] {
        layout.check();
        layout.inset().check();
        assert!(layout.meets_invariants());
        assert!(layout.inset().meets_invariants());
    }
    let mut bad: Layout = landscape();
    bad.rows = 7;
    assert!(!bad.meets_invariants(), "the seventh row runs off the bottom edge");
    let mut overlapping: Layout = landscape();
    overlapping.status_origin = Point { x: 30, y: 8 };
    assert!(!overlapping.meets_invariants(), "the status overlaps the creature");
    let mut wide: Layout = landscape();
    wide.cols = 25;
    assert!(!wide.meets_invariants(), "a full-width field runs off the right edge");
    let mut bandless: Layout = landscape();
    bandless.band_first_row = 6;
    assert!(!bandless.meets_invariants(), "the transcript band starts past the last row");
}

#[test]
fn the_overlay_panel_leaves_a_frame_of_the_screen_underneath() {
    let (at, size): (Point, Size) = landscape().panel();
    assert_eq!(at, Point { x: 5, y: 15 });
    assert_eq!(size, Size { width: 230, height: 103 });
    let inset: Layout = landscape().inset();
    assert_eq!((inset.cols, inset.rows, inset.top, inset.left), (22, 4, 25, 10));
}

// ---- pet --------------------------------------------------------------------------------

fn pet_stats() -> StatsView {
    StatsView {
        mood: 3,
        fed: 6,
        energy: 4,
        level: 7,
        approvals: 41,
        denials: 3,
        naps: 5,
        nap_minutes: 134,
        tokens_today: 128_400,
    }
}

#[test]
fn the_meters_place_themselves_by_the_canvas_width() {
    assert_eq!(gauge_rows(&landscape(), FED_CELLS), (true, 1));
    assert_eq!(gauge_rows(&portrait(), FED_CELLS), (false, 2));
    assert_eq!(gauge_rows(&portrait(), MOOD_CELLS), (true, 1));
    assert_eq!(gauge_rows(&portrait(), ENERGY_CELLS), (true, 1));
    assert_eq!(stats_rows(&landscape()), (1, 2, 3, 4));
    assert_eq!(stats_rows(&portrait()), (1, 2, 4, 5));
}

#[test]
fn the_stats_title_carries_the_level() {
    assert_eq!(stats_title(7), "PET  LV 7");
    assert_eq!(stats_title(12_345), "PET  LV 12k");
}

#[test]
fn the_counts_pair_up_on_the_wide_canvas_and_stack_on_the_narrow_one() {
    assert_eq!(count_lines(&landscape(), 4, &pet_stats()), ["OK 41 NO 3  x5", "TOK 128k  NAP 2h14m"]);
    assert_eq!(
        count_lines(&portrait(), 5, &pet_stats()),
        ["OK 41", "NO 3", "NAPS 5", "TOK 128k", "NAP 2h14m"]
    );
    assert_eq!(count_lines(&portrait(), 8, &pet_stats()), ["OK 41", "NO 3", "NAPS 5"]);
    assert!(count_lines(&landscape(), 9, &pet_stats()).is_empty());
}

// ---- hud --------------------------------------------------------------------------------

fn band_texts(band: &Band) -> Vec<(String, bool)> {
    band.rows.iter().map(|r: &BandRow| (r.text.clone(), r.bright)).collect()
}

#[test]
fn an_empty_transcript_says_it_is_quiet() {
    let band: Band = hud_band(&Transcript::empty(), 3, 23);
    assert_eq!(
        band_texts(&band),
        [("-- quiet --".to_string(), false), (String::new(), true), (String::new(), true)]
    );
    assert_eq!((band.shown, band.total), (0, 0));
}

#[test]
fn the_newest_entry_is_bright_and_the_older_dim() {
    let t: Transcript = Transcript::oldest_first(&["older line", "newer line"]);
    let band: Band = hud_band(&t, 3, 23);
    assert_eq!(
        band_texts(&band),
        [("newer line".to_string(), true), ("older line".to_string(), false), (String::new(), true)]
    );
    assert_eq!((band.shown, band.total), (2, 2));
}

#[test]
fn a_long_newest_entry_fills_the_band_on_its_own() {
    let t: Transcript = Transcript::oldest_first(&[
        "older",
        "Bash: cargo test --workspace --all-features and then some more words besides",
    ]);
    let band: Band = hud_band(&t, 3, 23);
    assert_eq!(
        band_texts(&band),
        [
            ("Bash: cargo test".to_string(), true),
            ("--workspace".to_string(), true),
            ("--all-features and then".to_string(), true),
        ]
    );
    assert_eq!((band.shown, band.total), (1, 2));
}

#[test]
fn the_thumb_is_what_is_shown_of_the_whole() {
    assert_eq!(thumb_height(62, 2, 2), 62);
    assert_eq!(thumb_height(62, 0, 0), 62);
    assert_eq!(thumb_height(100, 2, 11), 18);
    assert_eq!(thumb_height(100, 1, 100), 4);
    assert_eq!(thumb_height(3, 1, 100), 3);
}

// ---- overlays and pages -----------------------------------------------------------------

fn texts(rows: &[Row]) -> Vec<(String, Tone)> {
    rows.iter().map(|r: &Row| (r.text.clone(), r.tone)).collect()
}

fn row(text: &str, tone: Tone) -> (String, Tone) {
    (text.to_string(), tone)
}

fn a_device() -> DeviceView {
    DeviceView {
        name: "Buddy-4F2A".to_string(),
        firmware: "0.1.0".to_string(),
        address: "A0:B7:65:4F:2A:11".to_string(),
        owner: "elendal".to_string(),
        bonded: true,
        linked: false,
    }
}

#[test]
fn the_menu_window_follows_the_cursor_and_marks_it() {
    let inner: Layout = landscape().inset();
    assert_eq!(
        texts(&menu_rows(&inner, 0)),
        [
            row("MENU", Tone::Title),
            row("> Creature", Tone::Primary),
            row("  Owner", Tone::Dim),
            row("  Status", Tone::Dim),
        ]
    );
    assert_eq!(
        texts(&menu_rows(&inner, 4)),
        [
            row("MENU", Tone::Title),
            row("  Status", Tone::Dim),
            row("  Unpair", Tone::Dim),
            row("> Close", Tone::Primary),
        ]
    );
    let tall: Vec<Row> = menu_rows(&portrait().inset(), 3);
    assert_eq!(tall.len(), 9);
    assert_eq!(texts(&tall)[4], row("> Unpair", Tone::Primary));
    assert_eq!(texts(&tall)[8], row("", Tone::Primary));
}

#[test]
fn a_settings_entry_shows_its_value_and_its_help() {
    let inner: Layout = landscape().inset();
    assert_eq!(
        texts(&settings_rows(&inner, 3, &a_device(), MenuEntry::Species)),
        [
            row("Creature", Tone::Title),
            row("#3", Tone::Primary),
            row("B cycles the creature.", Tone::Dim),
            row("", Tone::Primary),
        ]
    );
    assert_eq!(
        texts(&settings_rows(&inner, 0, &a_device(), MenuEntry::Status)),
        [
            row("Status", Tone::Title),
            row("Buddy-4F2A", Tone::Primary),
            row("No bridge link.", Tone::Dim),
            row("", Tone::Primary),
        ]
    );
    assert_eq!(
        texts(&settings_rows(&inner, 0, &a_device(), MenuEntry::Close)),
        [
            row("Close", Tone::Title),
            row("B closes the menu.", Tone::Dim),
            row("", Tone::Primary),
            row("", Tone::Primary),
        ]
    );
}

#[test]
fn the_reset_confirmation_names_both_buttons() {
    let inner: Layout = landscape().inset();
    let (rows, yes, no, split): (Vec<Row>, Row, Row, usize) = reset_rows(&inner);
    assert_eq!(
        texts(&rows),
        [
            row("FORGET?", Tone::Danger),
            row("The host must pair", Tone::Dim),
            row("again.", Tone::Dim),
        ]
    );
    assert_eq!((yes.text.as_str(), yes.tone), ("A YES", Tone::Deny));
    assert_eq!((no.text.as_str(), no.tone), ("B NO", Tone::Approve));
    assert_eq!(split, 11);
}

#[test]
fn bonded_and_linked_are_reported_separately() {
    let rows: Vec<FieldRow> = bluetooth_fields(&a_device());
    assert_eq!(rows[1].value, "yes");
    assert_eq!(rows[1].tone, Tone::Linked);
    assert_eq!(rows[2].value, "down");
    assert_eq!(rows[2].tone, Tone::Unlinked);
}

#[test]
fn a_field_value_is_cut_to_the_columns_beside_its_label() {
    let mut long: DeviceView = a_device();
    long.name = "Buddy-WWWWWWWWWWWWWWWWWWWW".to_string();
    let wide: Vec<FieldRow> = fields(&landscape(), &device_fields(&long));
    assert_eq!(wide.len(), 3);
    assert_eq!(wide[0].label, "NAME");
    assert_eq!(wide[0].value, "Buddy-WWWWWWWWWWWWW");
    let narrow: Vec<FieldRow> = fields(&portrait(), &bluetooth_fields(&long));
    assert_eq!(narrow[0].value, "A0:B7:65");
    let mut short: Layout = landscape();
    short.rows = 3;
    assert_eq!(fields(&short, &device_fields(&long)).len(), 2);
}

#[test]
fn a_low_battery_on_the_charger_is_not_hot() {
    let low_charging: ClockView = ClockView { time: Some((14, 37)), battery_pct: Some(5), charging: true };
    let low_unplugged: ClockView = ClockView { charging: false, ..low_charging };
    assert_ne!(battery_tone(&low_charging), Tone::Hot);
    assert_eq!(battery_tone(&low_unplugged), Tone::Hot);
    assert_eq!(battery_tone(&ClockView { battery_pct: Some(20), ..low_unplugged }), Tone::Hot);
    assert_eq!(battery_tone(&ClockView { battery_pct: Some(21), ..low_unplugged }), Tone::Dim);
    assert_eq!(time_tone(&low_unplugged), Tone::Primary);
    assert_eq!(time_tone(&ClockView { time: None, ..low_unplugged }), Tone::Dim);
}

// ---- backdrop ---------------------------------------------------------------------------

const AREA: Rect = Rect { x: 0, y: 0, width: 10, height: 10 };

/// How many times each pixel of a 10×10 canvas is painted, and how many paints escaped it.
fn painted(covered: &[Rect]) -> ([[u32; 10]; 10], u32) {
    let mut grid: [[u32; 10]; 10] = [[0; 10]; 10];
    let mut escaped: u32 = 0;
    for strip in behind(AREA, &covered.to_vec()) {
        for y in strip.y..strip.y + strip.height as i32 {
            for x in strip.x..strip.x + strip.width as i32 {
                if (0..10).contains(&x) && (0..10).contains(&y) {
                    grid[y as usize][x as usize] += 1;
                } else {
                    escaped += 1;
                }
            }
        }
    }
    (grid, escaped)
}

fn lit(grid: &[[u32; 10]; 10]) -> usize {
    grid.iter().flatten().filter(|n: &&u32| **n > 0).count()
}

fn overpainted(grid: &[[u32; 10]; 10]) -> usize {
    grid.iter().flatten().filter(|n: &&u32| **n > 1).count()
}

#[test]
fn nothing_covered_paints_the_whole_area_once() {
    let (grid, _): ([[u32; 10]; 10], u32) = painted(&[]);
    assert_eq!(lit(&grid), 100);
    assert_eq!(overpainted(&grid), 0);
}

#[test]
fn one_band_is_left_for_its_own_renderer() {
    let band: Rect = Rect { x: 2, y: 3, width: 5, height: 2 };
    let (grid, _): ([[u32; 10]; 10], u32) = painted(&[band]);
    assert_eq!(lit(&grid), 100 - 10, "the band kept its ten pixels");
    assert_eq!(grid[3][2], 0, "inside the band");
    assert_eq!(grid[3][1], 1, "left of the band");
    assert_eq!(grid[4][7], 1, "right of the band");
    assert_eq!(grid[2][2], 1, "above the band");
    assert_eq!(grid[5][2], 1, "below the band");
    assert_eq!(overpainted(&grid), 0);
    assert_eq!(behind(AREA, &vec![band]).len(), 4);
}

#[test]
fn two_bands_keep_their_pixels_and_the_gap_between_them_is_filled() {
    let bands: [Rect; 2] = [
        Rect { x: 0, y: 1, width: 10, height: 2 },
        Rect { x: 0, y: 4, width: 10, height: 2 },
    ];
    let (grid, _): ([[u32; 10]; 10], u32) = painted(&bands);
    assert_eq!(lit(&grid), 100 - 40);
    assert_eq!(grid[1][5], 0, "the first band");
    assert_eq!(grid[3][5], 1, "the gap between them");
    assert_eq!(grid[4][5], 0, "the second band");
    assert_eq!(overpainted(&grid), 0);
}

#[test]
fn a_band_reaching_past_the_area_is_clipped_to_it() {
    let over: Rect = Rect { x: -4, y: 8, width: 20, height: 20 };
    let (grid, escaped): ([[u32; 10]; 10], u32) = painted(&[over]);
    assert_eq!(escaped, 0);
    assert_eq!(lit(&grid), 80, "the two rows the band covers are left");
    assert_eq!(overpainted(&grid), 0);
}

// ---- compositor -------------------------------------------------------------------------

#[test]
fn a_passkey_takes_over_from_every_screen_and_overlay() {
    for overlay in [Overlay::Nothing, Overlay::Menu { cursor: 2 }, Overlay::Reset] {
        assert_eq!(
            compose(Some(482_913), Screen::Home, overlay, ScreenRotation::Deg0),
            Frame::Passkey(482_913)
        );
    }
}

#[test]
fn an_overlay_masks_its_panel_out_of_the_screen_underneath() {
    assert_eq!(
        compose(None, Screen::Clock, Overlay::Reset, ScreenRotation::Deg180),
        Frame::Layers {
            screen: Screen::Clock,
            mask: Some((Point { x: 5, y: 15 }, Size { width: 230, height: 103 })),
            overlay: Overlay::Reset,
        }
    );
    assert_eq!(
        compose(None, Screen::Home, Overlay::Nothing, ScreenRotation::Deg90),
        Frame::Layers { screen: Screen::Home, mask: None, overlay: Overlay::Nothing }
    );
}

#[test]
fn a_hard_split_line_does_not_end_in_whitespace() {
    assert_eq!(lines("abcd\tefgh", 5), ["abcd", "efgh"]);
}

#[test]
fn a_page_body_breaks_at_each_newline_then_wraps() {
    assert_eq!(body_lines("a\n\nb", 5), ["a", "b"]);
    assert_eq!(body_lines("", 5), Vec::<String>::new());
    let page: Vec<Row> = page_rows(&landscape(), "HOW IT WORKS", HOW_TO);
    assert_eq!(
        texts(&page),
        [
            row("HOW IT WORKS", Tone::Title),
            row("Tokens feed it - a level", Tone::Dim),
            row("every 50k.", Tone::Dim),
            row("Fast answers make it", Tone::Dim),
            row("happy; denials do not.", Tone::Dim),
            row("Face down is a nap: naps", Tone::Dim),
        ]
    );
    let buttons: Vec<Row> = page_rows(&portrait(), "BUTTONS", BUTTONS);
    assert_eq!(buttons.len(), 11);
    assert_eq!(texts(&buttons)[4], row("B denies it.", Tone::Dim));
    assert_eq!(texts(&buttons)[9], row("", Tone::Primary));
}
