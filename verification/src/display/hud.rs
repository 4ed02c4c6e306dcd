//! The transcript band: the newest activity, word-wrapped into the bottom rows.
//!
//! Entries are laid out newest first, from the top of the band: each entry contributes as many
//! wrapped lines as it needs, and the band takes the first rows of that stream — so one long
//! newest entry may fill the band on its own. The newest entry's lines are bright and the rest
//! dim. Every row of the band is accounted for, blank ones included, so a shorter transcript
//! erases the longer one it replaced.
//!
//! The scroll indicator reports the whole transcript, not the band: its thumb is `shown / total`
//! of the track, so a band showing two of eleven entries says so.
use vstd::prelude::*;
use crate::display::view::Transcript;
use crate::display::wrap::{wrap, wrap_lines};

verus! {

/// What stands in the band when the host has sent no activity yet.
pub const QUIET: &'static str = "-- quiet --";

/// The scroll indicator's track width, in pixels.
pub const TRACK_WIDTH: u32 = 4;

/// The shortest thumb that is still visibly a thumb, in pixels.
pub const MIN_THUMB: u32 = 4;

/// One row of the band: its text, and whether it is drawn bright.
#[derive(Clone, PartialEq, Eq, Debug)]
pub struct BandRow {
    /// The text on the row; empty for a blank row.
    pub text: String,
    /// Bright (the newest entry, or a blank row) rather than dim.
    pub bright: bool,
}

/// The band, row by row, with what its scroll indicator reports.
#[derive(Clone, PartialEq, Eq, Debug)]
pub struct Band {
    /// Every row of the band, top to bottom.
    pub rows: Vec<BandRow>,
    /// How many entries have at least one line on the glass.
    pub shown: usize,
    /// How many entries the host holds in all.
    pub total: usize,
}

/// The wrapped lines of `entries` (newest first), each tagged with the index of its entry.
pub open spec fn tagged(entries: Seq<Seq<char>>, cols: nat) -> Seq<(nat, Seq<char>)>
    decreases entries.len(),
{
    if entries.len() == 0 {
        Seq::empty()
    } else {
        let k = (entries.len() - 1) as nat;
        tagged(entries.drop_last(), cols) + wrap_lines(entries.last(), cols).map_values(
            |l: Seq<char>| (k, l),
        )
    }
}

/// The lines the band holds: the first `rows` of the tagged stream.
pub open spec fn band_lines(entries: Seq<Seq<char>>, rows: nat, cols: nat) -> Seq<(nat, Seq<char>)> {
    let s = tagged(entries, cols);
    s.take(if rows < s.len() { rows as int } else { s.len() as int })
}

/// How many entries the band's lines reach into.
pub open spec fn shown_of(lines: Seq<(nat, Seq<char>)>) -> nat {
    if lines.len() == 0 { 0 } else { lines.last().0 + 1 }
}

/// The band's rows as text and brightness.
pub open spec fn rows_view(rows: Seq<BandRow>) -> Seq<(Seq<char>, bool)> {
    rows.map_values(|r: BandRow| (r.text@, r.bright))
}

/// Tagged lines as band rows: the newest entry's bright.
pub open spec fn lines_as_rows(lines: Seq<(nat, Seq<char>)>) -> Seq<(Seq<char>, bool)> {
    lines.map_values(|p: (nat, Seq<char>)| (p.1, p.0 == 0))
}

/// The stream of a prefix of the entries is a prefix of the stream of a longer one.
proof fn lemma_tagged_prefix(entries: Seq<Seq<char>>, cols: nat, i: int, j: int)
    requires
        0 <= i <= j <= entries.len(),
    ensures
        tagged(entries.take(i), cols).len() <= tagged(entries.take(j), cols).len(),
        tagged(entries.take(i), cols) == tagged(entries.take(j), cols).take(
            tagged(entries.take(i), cols).len() as int,
        ),
    decreases j - i,
{
    if i < j {
        lemma_tagged_prefix(entries, cols, i, j - 1);
        assert(entries.take(j).drop_last() =~= entries.take(j - 1));
        let a = tagged(entries.take(j - 1), cols);
        let b = tagged(entries.take(j), cols);
        assert(b == a + wrap_lines(entries.take(j).last(), cols).map_values(
            |l: Seq<char>| ((j - 1) as nat, l),
        ));
        let n = tagged(entries.take(i), cols).len() as int;
        assert(b.take(n) =~= a.take(n));
    } else {
        let s = tagged(entries.take(i), cols);
        assert(s.take(s.len() as int) =~= s);
    }
}

/// The band opens with the newest entry: its wrapped lines fill the band's first rows, in
/// order, tagged as the newest (and so bright), as far as the band reaches.
pub proof fn the_newest_entry_leads_the_band(entries: Seq<Seq<char>>, rows: nat, cols: nat, k: int)
    requires
        entries.len() > 0,
        0 <= k < rows,
        k < wrap_lines(entries[0], cols).len(),
    ensures
        k < band_lines(entries, rows, cols).len(),
        band_lines(entries, rows, cols)[k] == (0nat, wrap_lines(entries[0], cols)[k]),
        lines_as_rows(band_lines(entries, rows, cols))[k] == (wrap_lines(entries[0], cols)[k], true),
{
    lemma_tagged_prefix(entries, cols, 1, entries.len() as int);
    assert(entries.take(entries.len() as int) =~= entries);
    let one = entries.take(1);
    assert(one.drop_last() =~= Seq::<Seq<char>>::empty());
    assert(one.last() == entries[0]);
    assert(one.len() == 1);
    assert(tagged(one.drop_last(), cols) == Seq::<(nat, Seq<char>)>::empty());
    assert(tagged(one, cols) == tagged(one.drop_last(), cols) + wrap_lines(one.last(), cols).map_values(
        |l: Seq<char>| (0nat, l),
    ));
    assert(tagged(one, cols) =~= wrap_lines(entries[0], cols).map_values(|l: Seq<char>| (0nat, l)));
}

/// The thumb never outgrows its track, fills the track exactly when everything is on the
/// glass, and grows — never shrinks — as more of the transcript is shown.
pub proof fn the_thumb_measures_what_is_shown(height: u32, shown: nat, more: nat, total: nat)
    requires
        shown <= more,
    ensures
        thumb_of(height, shown, total) <= height,
        shown >= total ==> thumb_of(height, shown, total) == height,
        thumb_of(height, shown, total) <= thumb_of(height, more, total),
        shown < total && height >= MIN_THUMB ==> thumb_of(height, shown, total) >= MIN_THUMB,
{
    if shown < total {
        assert((height * shown) as int / (total as int) <= (height * more) as int / (total as int)) by (nonlinear_arith)
            requires
                shown <= more,
                total > 0,
        ;
        if more < total {
            assert((height * more) as int / (total as int) <= height) by (nonlinear_arith)
                requires
                    more < total,
                    total > 0,
            ;
        }
    }
}

/// The band for `t` in `rows` rows of `cols` columns: the newest entries' wrapped lines from the
/// top, the newest bright and the rest dim; `-- quiet --`, dim, on the first row of an empty
/// transcript; blank rows to the bottom.
pub fn hud_band(t: &Transcript, rows: usize, cols: usize) -> (r: Band)
    ensures
        ({
            let bl = band_lines(t.held(), rows as nat, cols as nat);
            let quiet = t.held().len() == 0 && rows > 0;
            let used = if quiet { 1 } else { bl.len() };
            &&& r.rows@.len() == rows
            &&& rows_view(r.rows@).take(bl.len() as int) == lines_as_rows(bl)
            &&& quiet ==> r.rows@[0].text@ == QUIET@ && !r.rows@[0].bright
            &&& forall|k: int| used <= k < rows ==> #[trigger] r.rows@[k].text@ == Seq::<char>::empty()
                && r.rows@[k].bright
            &&& r.shown == shown_of(bl)
            &&& r.total == t.whole()
        }),
{
    let entries: &[String] = t.newest_first();
    let ghost held = t.held();
    let n: usize = entries.len();
    let mut out: Vec<BandRow> = Vec::new();
    let mut shown: usize = 0;
    let mut i: usize = 0;
    while i < entries.len() && out.len() < rows
        invariant
            i <= entries@.len(),
            n == entries@.len(),
            held == t.held(),
            entries@.map_values(|s: String| s@) == held,
            rows_view(out@) == lines_as_rows(band_lines(held.take(i as int), rows as nat, cols as nat)),
            shown == shown_of(band_lines(held.take(i as int), rows as nat, cols as nat)),
            out@.len() <= rows,
            out@.len() < rows ==> out@.len() == tagged(held.take(i as int), cols as nat).len(),
        decreases entries@.len() - i,
    {
        let ghost a = tagged(held.take(i as int), cols as nat);
        let ghost b = wrap_lines(held[i as int], cols as nat).map_values(|l: Seq<char>| (i as nat, l));
        proof {
            assert(held.take(i + 1).drop_last() =~= held.take(i as int));
            assert(held.take(i + 1).last() == held[i as int]);
            assert(tagged(held.take(i + 1), cols as nat) == a + b);
            assert(entries@[i as int]@ == held[i as int]);
            assert(a.take(a.len() as int) =~= a);
        }
        let lines: Vec<String> = wrap(entries[i].as_str(), cols).into_lines();
        let mut j: usize = 0;
        while j < lines.len() && out.len() < rows
            invariant
                i < n,
                n == entries@.len(),
                j <= lines@.len(),
                lines@.map_values(|s: String| s@) == wrap_lines(held[i as int], cols as nat),
                b == wrap_lines(held[i as int], cols as nat).map_values(|l: Seq<char>| (i as nat, l)),
                rows_view(out@) == lines_as_rows(a + b.take(j as int)),
                out@.len() == a.len() + j,
                out@.len() <= rows,
                shown == shown_of(if j == 0 { band_lines(held.take(i as int), rows as nat, cols as nat) } else { a + b.take(j as int) }),
                shown_of(band_lines(held.take(i as int), rows as nat, cols as nat)) == shown_of(a),
            decreases lines@.len() - j,
        {
            let text: String = lines[j].clone();
            let ghost before = out@;
            out.push(BandRow { text, bright: i == 0 });
            proof {
                assert(lines@[j as int]@ == wrap_lines(held[i as int], cols as nat)[j as int]);
                assert(b[j as int] == (i as nat, lines@[j as int]@));
                assert(b.take(j + 1) =~= b.take(j as int).push(b[j as int]));
                assert(rows_view(out@) =~= rows_view(before).push((lines@[j as int]@, i == 0)));
                assert(lines_as_rows(a + b.take(j + 1)) =~= lines_as_rows(a + b.take(j as int)).push((b[j as int].1, b[j as int].0 == 0)));
                assert((a + b.take(j + 1)).last() == b[j as int]);
            }
            shown = i + 1;
            j = j + 1;
        }
        proof {
            let s = tagged(held.take(i + 1), cols as nat);
            let bl = band_lines(held.take(i + 1), rows as nat, cols as nat);
            if j == lines@.len() {
                assert(b.take(j as int) =~= b);
                assert(bl =~= a + b);
            } else {
                assert(bl =~= a + b.take(j as int));
            }
        }
        i = i + 1;
    }
    let ghost bl = band_lines(held, rows as nat, cols as nat);
    proof {
        if i < entries@.len() {
            lemma_tagged_prefix(held, cols as nat, i as int, held.len() as int);
            assert(held.take(held.len() as int) =~= held);
            assert(band_lines(held.take(i as int), rows as nat, cols as nat) =~= bl);
        } else {
            assert(held.take(i as int) =~= held);
        }
    }
    let used: usize = out.len();
    let ghost pre = out@;
    proof {
        assert(rows_view(out@).len() == out@.len());
        assert(lines_as_rows(bl).len() == bl.len());
        assert(rows_view(pre) == lines_as_rows(bl));
        assert(shown == shown_of(bl));
        assert(used == bl.len());
    }
    if entries.len() == 0 && rows > 0 {
        out.push(BandRow { text: String::from_str(QUIET), bright: false });
    }
    let ghost filled = out@;
    while out.len() < rows
        invariant
            out@.len() <= rows,
            filled.len() <= out@.len(),
            forall|k: int| 0 <= k < filled.len() ==> out@[k] == filled[k],
            forall|k: int| filled.len() <= k < out@.len() ==> #[trigger] out@[k].text@ == Seq::<char>::empty()
                && out@[k].bright,
        decreases rows - out@.len(),
    {
        let ghost before = out@;
        let blank: String = String::new();
        out.push(BandRow { text: blank, bright: true });
        proof {
            assert forall|k: int| filled.len() <= k < out@.len() implies #[trigger] out@[k].text@
                == Seq::<char>::empty() && out@[k].bright by {
                if k < before.len() {
                    assert(out@[k] == before[k]);
                }
            }
        }
    }
    proof {
        assert(out@.len() == rows);
        assert(filled.take(used as int) =~= pre);
        assert(entries@.len() == 0 && rows > 0 ==> filled.len() == 1);
        assert(!(entries@.len() == 0 && rows > 0) ==> filled.len() == used);
        assert(used == bl.len()) by {
            assert(rows_view(filled.take(used as int)).len() == used);
        }
        assert(rows_view(out@).take(bl.len() as int) =~= rows_view(filled.take(used as int))) by {
            assert forall|k: int| 0 <= k < bl.len() implies rows_view(out@)[k] == rows_view(filled.take(used as int))[k] by {
                assert(out@[k] == filled[k]);
            }
        }
        if entries@.len() == 0 && rows > 0 {
            assert(out@[0] == filled[0]);
        }
    }
    Band { rows: out, shown, total: t.total() }
}

/// The scroll thumb's height on a track `height` pixels tall: the whole track when everything
/// is on the glass, else `shown / total` of it, never shorter than [`MIN_THUMB`] nor taller than
/// the track.
pub open spec fn thumb_of(height: u32, shown: nat, total: nat) -> u32 {
    if shown >= total {
        height
    } else {
        let t: int = (height * shown) as int / (total as int);
        let t2: int = if t < MIN_THUMB { MIN_THUMB as int } else { t };
        if t2 > height { height } else { t2 as u32 }
    }
}

/// The scroll thumb's height (see [`thumb_of`]).
pub fn thumb_height(height: u32, shown: usize, total: usize) -> (r: u32)
    ensures
        r == thumb_of(height, shown as nat, total as nat),
{
    if shown >= total {
        return height;
    }
    assert((height as u128) * (shown as u128) <= 0xFFFF_FFFFu128 * 0xFFFF_FFFF_FFFF_FFFFu128) by (nonlinear_arith)
        requires
            height <= 0xFFFF_FFFFu32,
            shown <= 0xFFFF_FFFF_FFFF_FFFFu128,
    ;
    let t: u128 = (height as u128) * (shown as u128) / (total as u128);
    let t2: u128 = if t < MIN_THUMB as u128 {
        MIN_THUMB as u128
    } else {
        t
    };
    if t2 > height as u128 {
        height
    } else {
        t2 as u32
    }
}

} // verus!
