//! The pet screen's stats page, as rows of text: the title with the level, three labelled
//! meters, then the counts.
//!
//! The meters place themselves: a label and its meter sit on one row when the canvas is wide
//! enough to hold both, and on two rows when it is not — decided from the layout's own width
//! rather than by a per-shape branch. The counts follow the same rule: paired on a wide canvas,
//! one to a row on a narrow one, and cut to the rows that are left.
use vstd::prelude::*;
use crate::display::layout::{CELL_WIDTH, Layout, layout_ok};
use crate::display::units::{Compact, Span, compact_text, span_text};
use crate::display::view::StatsView;
use crate::text::append_str;

verus! {

/// Cells in the mood meter.
pub const MOOD_CELLS: usize = 5;

/// Cells in the fed meter.
pub const FED_CELLS: usize = 10;

/// Cells in the energy meter.
pub const ENERGY_CELLS: usize = 6;

/// The label field every meter's name is padded to: `ENERGY` is the longest at six, plus a
/// column of air.
pub const LABEL_COLS: usize = 7;

/// How the pet works, in the owner's terms: the how-to page's body, re-flowed onto either
/// canvas.
pub const HOW_TO: &'static str = "Tokens feed it - a level every 50k.\nFast answers make it happy; denials do not.\nFace down is a nap: naps restore energy.\nShake it to make it dizzy.";

/// The narrowest canvas, in columns, that pairs the counts up.
pub const PAIR_COLS: usize = 20;

/// How wide a meter of `cells` reaches, in pixels: each cell and the gap after it, less the
/// last gap; the count taken as a `u32`, as the meter takes it.
pub open spec fn meter_width(cells: usize) -> int {
    if cells == 0 { 0 } else { 11 * (cells as u32) - 3 }
}

/// Whether a meter of `cells` fits beside its label on `l`'s canvas.
pub open spec fn fits_beside(l: Layout, cells: usize) -> bool {
    l.left + CELL_WIDTH * LABEL_COLS + meter_width(cells) <= l.canvas.width
}

/// The rows a labelled meter of `cells` takes on `l`: one beside its label, two stacked.
pub open spec fn gauge_rows_of(l: Layout, cells: usize) -> nat {
    if fits_beside(l, cells) { 1 } else { 2 }
}

/// Where a meter of `cells` stands, and how many rows it takes, on `layout`: beside its label
/// (one row) when the canvas holds both, else under it (two rows). The meter's width and the
/// x it would end at must fit a `u32`.
pub fn gauge_rows(layout: &Layout, cells: usize) -> (r: (bool, usize))
    requires
        layout_ok(*layout),
        cells != 0 ==> 1 <= (cells as u32) && 11 * (cells as u32) <= u32::MAX,
        layout.left + CELL_WIDTH * LABEL_COLS + meter_width(cells) <= u32::MAX,
    ensures
        r.0 == fits_beside(*layout, cells),
        r.1 == gauge_rows_of(*layout, cells),
{
    let meter: u32 = crate::display::meter::width(cells);
    let label_px: u64 = 10 * (LABEL_COLS as u64);
    let beside_x: u64 = layout.left as u64 + label_px;
    let fits: bool = beside_x + meter as u64 <= layout.canvas.width as u64;
    (fits, if fits { 1 } else { 2 })
}

/// The stats page's title.
pub open spec fn title_text(level: u32) -> Seq<char> {
    "PET  LV "@ + compact_text(level)
}

/// The rows the three meters start on, and the row the counts start on: the title takes row
/// 0, then each meter takes the rows it needs.
pub open spec fn stats_rows_of(l: Layout) -> (nat, nat, nat, nat) {
    let mood = 1nat;
    let fed = mood + gauge_rows_of(l, MOOD_CELLS);
    let energy = fed + gauge_rows_of(l, FED_CELLS);
    (mood, fed, energy, energy + gauge_rows_of(l, ENERGY_CELLS))
}

/// Every count line, before they are cut to the rows left: paired on a wide canvas, one to a
/// row on a narrow one.
pub open spec fn count_texts(pairs: bool, s: StatsView) -> Seq<Seq<char>> {
    if pairs {
        seq![
            "OK "@ + compact_text(s.approvals) + " NO "@ + compact_text(s.denials) + "  x"@
                + compact_text(s.naps),
            "TOK "@ + compact_text(s.tokens_today) + "  NAP "@ + span_text(s.nap_minutes),
        ]
    } else {
        seq![
            "OK "@ + compact_text(s.approvals),
            "NO "@ + compact_text(s.denials),
            "NAPS "@ + compact_text(s.naps),
            "TOK "@ + compact_text(s.tokens_today),
            "NAP "@ + span_text(s.nap_minutes),
        ]
    }
}

/// The count lines on `l` from row `first`: as many as the rows below it hold.
pub open spec fn count_lines_of(l: Layout, first: nat, s: StatsView) -> Seq<Seq<char>> {
    let all = count_texts(l.cols >= PAIR_COLS, s);
    let left: int = if l.rows >= first { l.rows - first } else { 0 };
    all.take(if left < all.len() { left } else { all.len() as int })
}

/// A meter never takes fewer rows for having more cells: what fits beside its label with
/// more cells fits with fewer. A meter fits beside its label exactly when its label field and
/// its cells end within the canvas, and then takes one row; otherwise two.
pub proof fn meters_place_themselves(l: Layout, fewer: usize, more: usize)
    requires
        fewer <= more <= 0xFFFF_FFFF,
    ensures
        gauge_rows_of(l, fewer) <= gauge_rows_of(l, more),
        gauge_rows_of(l, more) == 1 <==> l.left + 70 + meter_width(more) <= l.canvas.width,
        gauge_rows_of(l, more) == 1 || gauge_rows_of(l, more) == 2,
{
    assert(fewer as u32 == fewer && more as u32 == more);
}

/// Each count line names the readings it shows: on a wide canvas the answers and naps share
/// the first line and today's tokens and nap time the second; on a narrow one each reading has
/// a line of its own, approvals first.
pub proof fn each_count_line_names_its_reading(s: StatsView)
    ensures
        count_texts(true, s).len() == 2,
        count_texts(true, s)[0] == "OK "@ + compact_text(s.approvals) + " NO "@ + compact_text(s.denials) + "  x"@
            + compact_text(s.naps),
        count_texts(true, s)[1] == "TOK "@ + compact_text(s.tokens_today) + "  NAP "@ + span_text(s.nap_minutes),
        count_texts(false, s).len() == 5,
        count_texts(false, s)[0] == "OK "@ + compact_text(s.approvals),
        count_texts(false, s)[1] == "NO "@ + compact_text(s.denials),
        count_texts(false, s)[2] == "NAPS "@ + compact_text(s.naps),
        count_texts(false, s)[3] == "TOK "@ + compact_text(s.tokens_today),
        count_texts(false, s)[4] == "NAP "@ + span_text(s.nap_minutes),
{
}

/// The counts never run past the grid: as many lines as the rows left below `first`, or all of
/// them when they fit, each the count line of that place.
pub proof fn the_counts_fit_the_rows_left(l: Layout, first: nat, s: StatsView)
    ensures
        first + count_lines_of(l, first, s).len() <= l.rows || count_lines_of(l, first, s).len() == 0,
        forall|k: int| 0 <= k < count_lines_of(l, first, s).len() ==> #[trigger] count_lines_of(l, first, s)[k]
            == count_texts(l.cols >= PAIR_COLS, s)[k],
{
}

/// The stats page's title.
pub fn stats_title(level: u32) -> (r: String)
    ensures
        r@ == title_text(level),
{
    let mut out: String = String::new();
    append_str(&mut out, "PET  LV ");
    append_str(&mut out, Compact(level).to_string().as_str());
    out
}

/// The rows the mood, fed and energy meters start on, and the row the counts start on.
pub fn stats_rows(layout: &Layout) -> (r: (usize, usize, usize, usize))
    requires
        layout_ok(*layout),
    ensures
        ({
            let (a, b, c, d) = stats_rows_of(*layout);
            r == (a as usize, b as usize, c as usize, d as usize)
        }),
{
    let mood: usize = 1;
    let fed: usize = mood + gauge_rows(layout, MOOD_CELLS).1;
    let energy: usize = fed + gauge_rows(layout, FED_CELLS).1;
    let counts: usize = energy + gauge_rows(layout, ENERGY_CELLS).1;
    (mood, fed, energy, counts)
}

/// The count lines under the meters, from row `first`, cut to the rows that are left.
pub fn count_lines(layout: &Layout, first: usize, stats: &StatsView) -> (r: Vec<String>)
    ensures
        r@.map_values(|s: String| s@) == count_lines_of(*layout, first as nat, *stats),
{
    let rows: usize = layout.rows.saturating_sub(first);
    let mut all: Vec<String> = Vec::new();
    if layout.cols >= PAIR_COLS {
        let mut a: String = String::new();
        append_str(&mut a, "OK ");
        append_str(&mut a, Compact(stats.approvals).to_string().as_str());
        append_str(&mut a, " NO ");
        append_str(&mut a, Compact(stats.denials).to_string().as_str());
        append_str(&mut a, "  x");
        append_str(&mut a, Compact(stats.naps).to_string().as_str());
        all.push(a);
        let mut b: String = String::new();
        append_str(&mut b, "TOK ");
        append_str(&mut b, Compact(stats.tokens_today).to_string().as_str());
        append_str(&mut b, "  NAP ");
        append_str(&mut b, Span(stats.nap_minutes).to_string().as_str());
        all.push(b);
    } else {
        all.push(labelled("OK ", Compact(stats.approvals).to_string()));
        all.push(labelled("NO ", Compact(stats.denials).to_string()));
        all.push(labelled("NAPS ", Compact(stats.naps).to_string()));
        all.push(labelled("TOK ", Compact(stats.tokens_today).to_string()));
        all.push(labelled("NAP ", Span(stats.nap_minutes).to_string()));
    }
    proof {
        assert(all@.map_values(|s: String| s@) =~= count_texts(layout.cols >= PAIR_COLS, *stats));
    }
    let ghost full = all@.map_values(|s: String| s@);
    let keep: usize = if rows < all.len() { rows } else { all.len() };
    all.truncate(keep);
    proof {
        assert(all@.map_values(|s: String| s@) =~= full.take(keep as int));
    }
    all
}

/// `label` followed by `reading`.
fn labelled(label: &str, reading: String) -> (r: String)
    ensures
        r@ == label@ + reading@,
{
    let mut out: String = String::new();
    append_str(&mut out, label);
    append_str(&mut out, reading.as_str());
    proof {
        assert(Seq::<char>::empty() + label@ == label@);
    }
    out
}

} // verus!
