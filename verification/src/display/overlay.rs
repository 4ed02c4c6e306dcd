//! The overlays as rows: the menu, a settings entry, and the reset confirmation, each on the
//! grid inset one character from the screen underneath.
//!
//! There are five entries and the landscape panel has three rows for them, so the entry list
//! is a window around the cursor rather than the first few: the cursor is always on the glass.
//! The selected entry carries a marker, not just a tone.
use vstd::prelude::*;
use crate::display::layout::Layout;
use crate::display::page::{Row, Tone, blank_rows, body_rows_of, push_blanks, push_body, push_row, rows_view};
use crate::display::view::{DeviceView, MenuEntry};
use crate::text::{append_str, decimal, push_decimal};
use vstd::string::StringExecFns;

verus! {

/// The first entry of the window of `visible` entries, out of `total`, that keeps `cursor` on
/// the glass.
pub open spec fn window_start_spec(cursor: nat, visible: nat, total: nat) -> nat {
    if visible >= total {
        0
    } else {
        let follow: nat = if cursor >= visible - 1 { (cursor - (visible - 1)) as nat } else { 0 };
        if follow <= total - visible { follow } else { (total - visible) as nat }
    }
}

/// The first entry of the window that keeps `cursor` on the glass: a list that fits needs no
/// window; past the first window the window follows the cursor, and stops at the end of the
/// list.
pub fn window_start(cursor: usize, visible: usize, total: usize) -> (r: usize)
    requires
        visible > 0 || visible >= total,
    ensures
        r == window_start_spec(cursor as nat, visible as nat, total as nat),
{
    if visible >= total {
        return 0;
    }
    let follow: usize = cursor.saturating_sub(visible - 1);
    if follow <= total - visible {
        follow
    } else {
        total - visible
    }
}

/// The window always holds the cursor, and never runs past the end of the list.
pub proof fn window_contains_cursor(cursor: nat, visible: nat, total: nat)
    requires
        cursor < total,
        visible > 0,
    ensures
        window_start_spec(cursor, visible, total) <= cursor,
        cursor < window_start_spec(cursor, visible, total) + visible,
        visible <= total ==> window_start_spec(cursor, visible, total) + visible <= total,
{
}

/// The word a settings entry is shown by, inside the narrow panel's columns.
pub fn entry_word(entry: MenuEntry) -> (r: &'static str)
    ensures
        r@ == (match entry {
            MenuEntry::Species => "Creature"@,
            MenuEntry::Owner => "Owner"@,
            MenuEntry::Status => "Status"@,
            MenuEntry::Unpair => "Unpair"@,
            MenuEntry::Close => "Close"@,
        }),
{
    match entry {
        MenuEntry::Species => "Creature",
        MenuEntry::Owner => "Owner",
        MenuEntry::Status => "Status",
        MenuEntry::Unpair => "Unpair",
        MenuEntry::Close => "Close",
    }
}

/// How many entries the menu has.
pub const MENU_LEN: usize = 5;

/// The menu's entries, in order.
pub open spec fn menu_entry_at(i: int) -> MenuEntry {
    if i == 0 {
        MenuEntry::Species
    } else if i == 1 {
        MenuEntry::Owner
    } else if i == 2 {
        MenuEntry::Status
    } else if i == 3 {
        MenuEntry::Unpair
    } else {
        MenuEntry::Close
    }
}

/// The word an entry is shown by.
pub open spec fn word_of(e: MenuEntry) -> Seq<char> {
    match e {
        MenuEntry::Species => "Creature"@,
        MenuEntry::Owner => "Owner"@,
        MenuEntry::Status => "Status"@,
        MenuEntry::Unpair => "Unpair"@,
        MenuEntry::Close => "Close"@,
    }
}

/// Menu entry `i` as a row, marked and bright when the cursor is on it.
pub open spec fn menu_item(cursor: nat, i: int) -> (Seq<char>, Tone) {
    if i == cursor {
        (">"@ + " "@ + word_of(menu_entry_at(i)), Tone::Primary)
    } else {
        (" "@ + " "@ + word_of(menu_entry_at(i)), Tone::Dim)
    }
}

/// How many entries the menu shows on a grid of `rows` rows: all it can under the title.
pub open spec fn menu_visible(rows: nat) -> nat {
    if rows - 1 < MENU_LEN { (rows - 1) as nat } else { MENU_LEN as nat }
}

/// The menu on a grid of `rows` rows: the title, the window of entries around the cursor, and
/// blank rows.
pub open spec fn menu_rows_of(rows: nat, cursor: nat) -> Seq<(Seq<char>, Tone)> {
    let visible = menu_visible(rows);
    let first = window_start_spec(cursor, visible, MENU_LEN as nat);
    seq![("MENU"@, Tone::Title)] + Seq::new(visible, |k: int| menu_item(cursor, first + k))
        + blank_rows((rows - 1 - visible) as nat)
}

/// The menu marks exactly the entry under the cursor: on a grid of at least two rows, with the
/// cursor on one of the entries, the window shows that entry, marked and bright, and every
/// other entry it shows unmarked and dim.
pub proof fn the_menu_marks_the_cursor(rows: nat, cursor: nat)
    requires
        rows >= 2,
        cursor < MENU_LEN,
    ensures
        ({
            let first = window_start_spec(cursor, menu_visible(rows), MENU_LEN as nat);
            let k = cursor - first;
            &&& 0 <= k < menu_visible(rows)
            &&& menu_rows_of(rows, cursor)[1 + k] == (">"@ + " "@ + word_of(menu_entry_at(cursor as int)), Tone::Primary)
            &&& forall|j: int| 0 <= j < menu_visible(rows) && j != k ==> (#[trigger] menu_rows_of(rows, cursor)[1 + j]).1
                == Tone::Dim
        }),
        menu_rows_of(rows, cursor).len() == rows,
        menu_rows_of(rows, cursor)[0] == ("MENU"@, Tone::Title),
{
    window_contains_cursor(cursor, menu_visible(rows), MENU_LEN as nat);
}

/// The menu entry at `i`.
fn entry_at(i: usize) -> (r: MenuEntry)
    ensures
        r == menu_entry_at(i as int),
{
    if i == 0 {
        MenuEntry::Species
    } else if i == 1 {
        MenuEntry::Owner
    } else if i == 2 {
        MenuEntry::Status
    } else if i == 3 {
        MenuEntry::Unpair
    } else {
        MenuEntry::Close
    }
}

/// The menu's rows on the overlay grid `inner`, with the cursor on entry `cursor`.
pub fn menu_rows(inner: &Layout, cursor: u8) -> (r: Vec<Row>)
    requires
        inner.rows >= 2,
    ensures
        rows_view(r@) == menu_rows_of(inner.rows as nat, cursor as nat),
{
    let mut out: Vec<Row> = Vec::new();
    push_row(&mut out, String::from_str("MENU"), Tone::Title);
    let visible: usize = if inner.rows - 1 < MENU_LEN { inner.rows - 1 } else { MENU_LEN };
    let first: usize = window_start(cursor as usize, visible, MENU_LEN);
    let ghost head = seq![("MENU"@, Tone::Title)];
    let mut k: usize = 0;
    while k < visible
        invariant
            k <= visible,
            visible == menu_visible(inner.rows as nat),
            visible <= MENU_LEN,
            first == window_start_spec(cursor as nat, visible as nat, MENU_LEN as nat),
            first + visible <= MENU_LEN,
            rows_view(out@) == head + Seq::new(k as nat, |j: int| menu_item(cursor as nat, first + j)),
        decreases visible - k,
    {
        let i: usize = first + k;
        let selected: bool = i == cursor as usize;
        let mut text: String = String::new();
        append_str(&mut text, if selected { ">" } else { " " });
        append_str(&mut text, " ");
        append_str(&mut text, entry_word(entry_at(i)));
        let ghost before = rows_view(out@);
        proof {
            assert(Seq::<char>::empty() + (if selected { ">"@ } else { " "@ }) == (if selected { ">"@ } else { " "@ }));
        }
        push_row(&mut out, text, if selected { Tone::Primary } else { Tone::Dim });
        proof {
            assert(Seq::new((k + 1) as nat, |j: int| menu_item(cursor as nat, first + j)) =~= Seq::new(
                k as nat,
                |j: int| menu_item(cursor as nat, first + j),
            ).push(menu_item(cursor as nat, first + k)));
            assert(head + Seq::new((k + 1) as nat, |j: int| menu_item(cursor as nat, first + j)) =~= (head
                + Seq::new(k as nat, |j: int| menu_item(cursor as nat, first + j))).push(
                menu_item(cursor as nat, first + k),
            ));
        }
        k = k + 1;
    }
    push_blanks(&mut out, inner.rows - 1 - visible);
    out
}

/// The line under a settings entry's value.
pub open spec fn settings_hint(entry: MenuEntry, linked: bool) -> Seq<char> {
    match entry {
        MenuEntry::Species => "B cycles the creature."@,
        MenuEntry::Owner => "Set from the host."@,
        MenuEntry::Status => if linked { "Bridge link up."@ } else { "No bridge link."@ },
        MenuEntry::Unpair => "B forgets the bond."@,
        MenuEntry::Close => "B closes the menu."@,
    }
}

/// A settings entry opened, on a grid of `rows` rows of `cols` columns: its word as the title;
/// for the creature, the owner and the status, the current value — the species number, the
/// owner label, the stick's name — bright on the next row; then the entry's line of help,
/// wrapped, and blank rows.
pub open spec fn settings_rows_of(
    cols: nat,
    rows: nat,
    species: u8,
    device: DeviceView,
    entry: MenuEntry,
) -> Seq<(Seq<char>, Tone)> {
    let head = seq![(word_of(entry), Tone::Title)];
    let hint = settings_hint(entry, device.linked);
    match entry {
        MenuEntry::Species => head + seq![("#"@ + decimal(species as nat), Tone::Primary)]
            + body_rows_of(hint, cols, (rows - 2) as nat),
        MenuEntry::Owner => head + seq![(device.owner@, Tone::Primary)] + body_rows_of(hint, cols, (rows - 2) as nat),
        MenuEntry::Status => head + seq![(device.name@, Tone::Primary)] + body_rows_of(hint, cols, (rows - 2) as nat),
        _ => head + body_rows_of(hint, cols, (rows - 1) as nat),
    }
}

/// The rows of the settings entry `entry` on the overlay grid `inner`, for a creature of
/// species `species` on the stick `device`.
pub fn settings_rows(inner: &Layout, species: u8, device: &DeviceView, entry: MenuEntry) -> (r: Vec<Row>)
    requires
        inner.rows >= 2,
    ensures
        rows_view(r@) == settings_rows_of(inner.cols as nat, inner.rows as nat, species, *device, entry),
{
    let mut out: Vec<Row> = Vec::new();
    push_row(&mut out, String::from_str(entry_word(entry)), Tone::Title);
    let hint: &str = match entry {
        MenuEntry::Species => "B cycles the creature.",
        MenuEntry::Owner => "Set from the host.",
        MenuEntry::Status => if device.linked {
            "Bridge link up."
        } else {
            "No bridge link."
        },
        MenuEntry::Unpair => "B forgets the bond.",
        MenuEntry::Close => "B closes the menu.",
    };
    match entry {
        MenuEntry::Species => {
            let mut value: String = String::new();
            append_str(&mut value, "#");
            push_decimal(&mut value, species as u64);
            proof {
                assert(Seq::<char>::empty() + "#"@ == "#"@);
            }
            push_row(&mut out, value, Tone::Primary);
            push_body(&mut out, hint, inner.cols, inner.rows - 2);
        },
        MenuEntry::Owner => {
            push_row(&mut out, device.owner.clone(), Tone::Primary);
            push_body(&mut out, hint, inner.cols, inner.rows - 2);
        },
        MenuEntry::Status => {
            push_row(&mut out, device.name.clone(), Tone::Primary);
            push_body(&mut out, hint, inner.cols, inner.rows - 2);
        },
        _ => {
            push_body(&mut out, hint, inner.cols, inner.rows - 1);
        },
    }
    out
}

/// A wrapped body fills exactly the rows it is given.
proof fn lemma_body_rows_len(body: Seq<char>, cols: nat, rows: nat)
    ensures
        body_rows_of(body, cols, rows).len() == rows,
{
}

/// Each settings entry shows its own value: the title is the entry's word, the creature's
/// value row is its species number, the owner's is the owner label and the status's the
/// stick's name — and the entry fills the grid's rows exactly.
pub proof fn each_entry_shows_its_own_value(cols: nat, rows: nat, species: u8, d: DeviceView, entry: MenuEntry)
    requires
        rows >= 2,
    ensures
        settings_rows_of(cols, rows, species, d, entry).len() == rows,
        settings_rows_of(cols, rows, species, d, entry)[0] == (word_of(entry), Tone::Title),
        entry == MenuEntry::Owner ==> settings_rows_of(cols, rows, species, d, entry)[1] == (d.owner@, Tone::Primary),
        entry == MenuEntry::Status ==> settings_rows_of(cols, rows, species, d, entry)[1] == (d.name@, Tone::Primary),
        entry == MenuEntry::Species ==> settings_rows_of(cols, rows, species, d, entry)[1] == (
            "#"@ + decimal(species as nat),
            Tone::Primary,
        ),
{
    lemma_body_rows_len(settings_hint(entry, d.linked), cols, (rows - 2) as nat);
    lemma_body_rows_len(settings_hint(entry, d.linked), cols, (rows - 1) as nat);
}

/// The owner entry depends on the owner label alone among the device's facts: two sticks
/// with the same owner label show the same owner entry, whatever their names, firmware,
/// addresses and link state.
pub proof fn the_owner_entry_reads_only_the_owner(cols: nat, rows: nat, species: u8, d1: DeviceView, d2: DeviceView)
    requires
        d1.owner@ == d2.owner@,
    ensures
        settings_rows_of(cols, rows, species, d1, MenuEntry::Owner) == settings_rows_of(cols, rows, species, d2, MenuEntry::Owner),
{
}

/// The reset confirmation on a grid of `rows` rows of `cols` columns: the question, the
/// consequence wrapped under it, and on the last row both buttons named — the safe one as well
/// as the dangerous one.
pub open spec fn reset_rows_of(cols: nat, rows: nat) -> Seq<(Seq<char>, Tone)> {
    seq![("FORGET?"@, Tone::Danger)] + body_rows_of("The host must pair again."@, cols, (rows - 2) as nat)
}

/// The reset confirmation asks first, in the danger tone, and fills every row above its
/// buttons.
pub proof fn the_reset_asks_first(cols: nat, rows: nat)
    requires
        rows >= 2,
    ensures
        reset_rows_of(cols, rows).len() == rows - 1,
        reset_rows_of(cols, rows)[0] == ("FORGET?"@, Tone::Danger),
{
    lemma_body_rows_len("The host must pair again."@, cols, (rows - 2) as nat);
}

/// The reset confirmation on the overlay grid `inner`: its rows above the last, the two button
/// labels, and the column the second label starts at.
pub fn reset_rows(inner: &Layout) -> (r: (Vec<Row>, Row, Row, usize))
    requires
        inner.rows >= 2,
    ensures
        rows_view(r.0@) == reset_rows_of(inner.cols as nat, inner.rows as nat),
        r.1.text@ == "A YES"@ && r.1.tone == Tone::Deny,
        r.2.text@ == "B NO"@ && r.2.tone == Tone::Approve,
        r.3 == inner.cols / 2,
{
    let mut out: Vec<Row> = Vec::new();
    push_row(&mut out, String::from_str("FORGET?"), Tone::Danger);
    push_body(&mut out, "The host must pair again.", inner.cols, inner.rows - 2);
    let yes: Row = Row { text: String::from_str("A YES"), tone: Tone::Deny };
    let no: Row = Row { text: String::from_str("B NO"), tone: Tone::Approve };
    (out, yes, no, inner.cols / 2)
}

} // verus!
