//! The background behind a picture — painted only where the picture itself is not.
//!
//! Every write reaches the panel and the eye sees it, so a renderer that clears a region and
//! then draws into it shows the cleared state for the length of a transfer. The rule is that
//! every pixel is painted once per frame: an opaque text field already covers its own band, so a
//! screen only has to paint the pixels between and around its bands. [`behind`] answers exactly
//! those, as at most `2 * bands + 1` strips: the strip above each band, the strips either side
//! of it, and the strip below the last one.
use vstd::prelude::*;

verus! {

/// A rectangle of pixels.
#[derive(Clone, Copy, PartialEq, Eq, Debug, Structural)]
pub struct Rect {
    /// The left edge.
    pub x: i32,
    /// The top edge.
    pub y: i32,
    /// Pixels across.
    pub width: u32,
    /// Pixels down.
    pub height: u32,
}

/// A rectangle as exact integers: left, top, width, height.
pub type Span4 = (int, int, int, int);

/// The model of a rectangle.
pub open spec fn span_of(r: Rect) -> Span4 {
    (r.x as int, r.y as int, r.width as int, r.height as int)
}

/// Whether a rectangle's far edges fit an `i32`.
pub open spec fn rect_fits(r: Rect) -> bool {
    &&& r.width <= i32::MAX
    &&& r.height <= i32::MAX
    &&& r.x + r.width <= i32::MAX
    &&& r.y + r.height <= i32::MAX
}

/// `v` held within `lo..=hi`.
pub open spec fn clamp(v: int, lo: int, hi: int) -> int {
    if v < lo { lo } else if v > hi { hi } else { v }
}

/// The strip `(x, y, w, h)`, or nothing when it has no area.
pub open spec fn keep(x: int, y: int, w: int, h: int) -> Seq<Span4> {
    if w > 0 && h > 0 { seq![(x, y, w, h)] } else { Seq::empty() }
}

/// Where a band lands once held inside the area from row `y` down: its top, bottom, left and
/// right edges.
pub open spec fn band_edges(left: int, right: int, bottom: int, y: int, b: Span4) -> (int, int, int, int) {
    let top = clamp(b.1, y, bottom);
    let bb = clamp(b.1 + b.3, top, bottom);
    let bl = clamp(b.0, left, right);
    let br = clamp(b.0 + b.2, bl, right);
    (top, bb, bl, br)
}

/// The background strips for the area columns `left..right`, rows `y..bottom`, around `bands`
/// taken top to bottom.
pub open spec fn strips_from(left: int, right: int, bottom: int, y: int, bands: Seq<Span4>) -> Seq<Span4>
    decreases bands.len(),
{
    if bands.len() == 0 {
        keep(left, y, right - left, bottom - y)
    } else {
        let (top, bb, bl, br) = band_edges(left, right, bottom, y, bands[0]);
        keep(left, y, right - left, top - y) + keep(left, top, bl - left, bb - top) + keep(br, top, right - br, bb - top)
            + strips_from(left, right, bottom, bb, bands.drop_first())
    }
}

/// The bands as they land inside the area, each held below the one before.
pub open spec fn landed_from(left: int, right: int, bottom: int, y: int, bands: Seq<Span4>) -> Seq<Span4>
    decreases bands.len(),
{
    if bands.len() == 0 {
        Seq::empty()
    } else {
        let (top, bb, bl, br) = band_edges(left, right, bottom, y, bands[0]);
        seq![(bl, top, br - bl, bb - top)] + landed_from(left, right, bottom, bb, bands.drop_first())
    }
}

/// The background strips around `bands` in `area`.
pub open spec fn strips_of(area: Rect, bands: Seq<Rect>) -> Seq<Span4> {
    strips_from(area.x as int, area.x + area.width, area.y + area.height, area.y as int, bands.map_values(|b: Rect| span_of(b)))
}

/// The bands of `bands` as they land inside `area`.
pub open spec fn landed_of(area: Rect, bands: Seq<Rect>) -> Seq<Span4> {
    landed_from(area.x as int, area.x + area.width, area.y + area.height, area.y as int, bands.map_values(|b: Rect| span_of(b)))
}

/// Whether pixel `(px, py)` lies in `r`.
pub open spec fn holds(r: Span4, px: int, py: int) -> bool {
    r.0 <= px < r.0 + r.2 && r.1 <= py < r.1 + r.3
}

/// How many of `rs` hold pixel `(px, py)`.
pub open spec fn times_held(rs: Seq<Span4>, px: int, py: int) -> nat
    decreases rs.len(),
{
    if rs.len() == 0 {
        0
    } else {
        (if holds(rs[0], px, py) { 1nat } else { 0nat }) + times_held(rs.drop_first(), px, py)
    }
}

/// Counting over two runs of rectangles adds up.
proof fn lemma_times_add(a: Seq<Span4>, b: Seq<Span4>, px: int, py: int)
    ensures
        times_held(a + b, px, py) == times_held(a, px, py) + times_held(b, px, py),
    decreases a.len(),
{
    if a.len() > 0 {
        lemma_times_add(a.drop_first(), b, px, py);
        assert((a + b).drop_first() =~= a.drop_first() + b);
    } else {
        assert(a + b =~= b);
    }
}

/// A kept strip holds a pixel exactly when the strip does.
proof fn lemma_times_keep(x: int, y: int, w: int, h: int, px: int, py: int)
    ensures
        times_held(keep(x, y, w, h), px, py) == (if holds((x, y, w, h), px, py) { 1nat } else { 0nat }),
{
    assert(times_held(Seq::<Span4>::empty(), px, py) == 0);
    if w > 0 && h > 0 {
        assert(keep(x, y, w, h).drop_first() =~= Seq::<Span4>::empty());
    }
}

/// Below row `y`, the strips and the landed bands hold each pixel of the columns
/// `left..right` exactly once, and nothing outside those rows and columns.
proof fn lemma_once(left: int, right: int, bottom: int, y: int, bands: Seq<Span4>, px: int, py: int)
    requires
        left <= right,
        y <= bottom,
    ensures
        times_held(strips_from(left, right, bottom, y, bands), px, py) + times_held(
            landed_from(left, right, bottom, y, bands),
            px,
            py,
        ) == (if left <= px < right && y <= py < bottom { 1nat } else { 0nat }),
    decreases bands.len(),
{
    assert(times_held(Seq::<Span4>::empty(), px, py) == 0);
    if bands.len() == 0 {
        lemma_times_keep(left, y, right - left, bottom - y, px, py);
    } else {
        let (top, bb, bl, br) = band_edges(left, right, bottom, y, bands[0]);
        lemma_once(left, right, bottom, bb, bands.drop_first(), px, py);
        let s0 = keep(left, y, right - left, top - y);
        let s1 = keep(left, top, bl - left, bb - top);
        let s2 = keep(br, top, right - br, bb - top);
        let rest = strips_from(left, right, bottom, bb, bands.drop_first());
        lemma_times_add(s0 + s1 + s2, rest, px, py);
        lemma_times_add(s0 + s1, s2, px, py);
        lemma_times_add(s0, s1, px, py);
        lemma_times_keep(left, y, right - left, top - y, px, py);
        lemma_times_keep(left, top, bl - left, bb - top, px, py);
        lemma_times_keep(br, top, right - br, bb - top, px, py);
        let c = seq![(bl, top, br - bl, bb - top)];
        lemma_times_add(c, landed_from(left, right, bottom, bb, bands.drop_first()), px, py);
        assert(c.drop_first() =~= Seq::<Span4>::empty());
    }
}

/// Every pixel painted once: the strips [`behind`] answers, together with the bands as they
/// land inside the area, hold every pixel of the area exactly once and no pixel outside it.
pub proof fn painted_once(area: Rect, bands: Seq<Rect>, px: int, py: int)
    ensures
        times_held(strips_of(area, bands), px, py) + times_held(landed_of(area, bands), px, py) == (if holds(
            span_of(area),
            px,
            py,
        ) {
            1nat
        } else {
            0nat
        }),
{
    lemma_once(
        area.x as int,
        area.x + area.width,
        area.y + area.height,
        area.y as int,
        bands.map_values(|b: Rect| span_of(b)),
        px,
        py,
    );
}

/// Whether `bands` run top to bottom without overlapping: each ends at or above where every
/// later one begins.
pub open spec fn top_to_bottom(bands: Seq<Span4>) -> bool {
    forall|i: int, j: int| 0 <= i < j < bands.len() ==> #[trigger] bands[i].1 + bands[i].3 <= #[trigger] bands[j].1
}

/// One landed band per band.
proof fn lemma_landed_len(left: int, right: int, bottom: int, y: int, bands: Seq<Span4>)
    ensures
        landed_from(left, right, bottom, y, bands).len() == bands.len(),
    decreases bands.len(),
{
    if bands.len() > 0 {
        let (top, bb, bl, br) = band_edges(left, right, bottom, y, bands[0]);
        lemma_landed_len(left, right, bottom, bb, bands.drop_first());
    }
}

/// Held below row `y` (from an area starting at row `top0`), bands that run top to bottom land
/// as their own intersection with the area.
proof fn lemma_landed_clip(
    left: int,
    right: int,
    bottom: int,
    top0: int,
    y: int,
    bands: Seq<Span4>,
    k: int,
    px: int,
    py: int,
)
    requires
        left <= right,
        top0 <= y <= bottom,
        0 <= k < bands.len(),
        top_to_bottom(bands),
        forall|i: int| 0 <= i < bands.len() ==> #[trigger] bands[i].2 >= 0 && bands[i].3 >= 0,
        forall|i: int| 0 <= i < bands.len() ==> #[trigger] bands[i].1 >= y || y == top0,
    ensures
        holds(landed_from(left, right, bottom, y, bands)[k], px, py) == (holds(bands[k], px, py)
            && left <= px < right && top0 <= py < bottom),
    decreases k,
{
    let (top, bb, bl, br) = band_edges(left, right, bottom, y, bands[0]);
    let rest = bands.drop_first();
    let landed = landed_from(left, right, bottom, y, bands);
    assert(landed == seq![(bl, top, br - bl, bb - top)] + landed_from(left, right, bottom, bb, rest));
    if k == 0 {
        assert(landed[0] == (bl, top, br - bl, bb - top));
        assert(bands[0].2 >= 0 && bands[0].3 >= 0);
        assert(bands[0].1 >= y || y == top0);
    } else {
        assert forall|i: int, j: int| 0 <= i < j < rest.len() implies #[trigger] rest[i].1 + rest[i].3
            <= #[trigger] rest[j].1 by {
            assert(rest[i] == bands[i + 1] && rest[j] == bands[j + 1]);
            assert(bands[i + 1].1 + bands[i + 1].3 <= bands[j + 1].1);
        }
        assert forall|i: int| 0 <= i < rest.len() implies #[trigger] rest[i].2 >= 0 && rest[i].3 >= 0 by {
            assert(rest[i] == bands[i + 1]);
            assert(bands[i + 1].2 >= 0 && bands[i + 1].3 >= 0);
        }
        assert forall|i: int| 0 <= i < rest.len() implies #[trigger] rest[i].1 >= bb || bb == top0 by {
            assert(rest[i] == bands[i + 1]);
            assert(bands[0].1 + bands[0].3 <= bands[i + 1].1);
            assert(bands[0].1 >= y || y == top0);
            assert(bands[i + 1].1 >= y || y == top0);
            assert(bands[0].3 >= 0);
        }
        lemma_landed_clip(left, right, bottom, top0, bb, rest, k - 1, px, py);
        lemma_landed_len(left, right, bottom, bb, rest);
        assert(landed[k] == landed_from(left, right, bottom, bb, rest)[k - 1]);
        assert(rest[k - 1] == bands[k]);
    }
}

/// Bands that run top to bottom without overlapping land as exactly their intersection with
/// the area — so, with [`painted_once`], the strips and the caller's own bands paint every
/// pixel of the area once.
pub proof fn landed_bands_are_clipped(area: Rect, bands: Seq<Rect>, k: int, px: int, py: int)
    requires
        0 <= k < bands.len(),
        top_to_bottom(bands.map_values(|b: Rect| span_of(b))),
    ensures
        holds(landed_of(area, bands)[k], px, py) == (holds(span_of(bands[k]), px, py) && holds(span_of(area), px, py)),
{
    let spans = bands.map_values(|b: Rect| span_of(b));
    assert forall|i: int| 0 <= i < spans.len() implies #[trigger] spans[i].2 >= 0 && spans[i].3 >= 0 by {
        assert(spans[i] == span_of(bands[i]));
    }
    lemma_landed_clip(
        area.x as int,
        area.x + area.width,
        area.y + area.height,
        area.y as int,
        area.y as int,
        spans,
        k,
        px,
        py,
    );
}

/// Append the strip `(x, y, w, h)` to `out` when it has area.
fn push_strip(out: &mut Vec<Rect>, x: i64, y: i64, w: i64, h: i64)
    requires
        i32::MIN <= x <= i32::MAX,
        i32::MIN <= y <= i32::MAX,
        w <= u32::MAX,
        h <= u32::MAX,
    ensures
        final(out)@.map_values(|r: Rect| span_of(r)) == old(out)@.map_values(|r: Rect| span_of(r)) + keep(
            x as int,
            y as int,
            w as int,
            h as int,
        ),
{
    let ghost before = out@.map_values(|r: Rect| span_of(r));
    if w > 0 && h > 0 {
        out.push(Rect { x: x as i32, y: y as i32, width: w as u32, height: h as u32 });
        proof {
            assert(out@.map_values(|r: Rect| span_of(r)) =~= before + seq![(x as int, y as int, w as int, h as int)]);
        }
    } else {
        proof {
            assert(before + keep(x as int, y as int, w as int, h as int) =~= before);
        }
    }
}

/// `v` held within `lo..=hi`.
fn clamp_to(v: i64, lo: i64, hi: i64) -> (r: i64)
    ensures
        r == clamp(v as int, lo as int, hi as int),
{
    if v < lo {
        lo
    } else if v > hi {
        hi
    } else {
        v
    }
}

/// The background strips of `area` around `covered`: the bands the caller paints itself, which
/// run top to bottom without overlapping. Anything outside `area` is ignored, so a band may
/// hang past an edge. Strips with no area are left out.
pub fn behind(area: Rect, covered: &Vec<Rect>) -> (r: Vec<Rect>)
    requires
        rect_fits(area),
        forall|k: int| 0 <= k < covered@.len() ==> #[trigger] rect_fits(covered@[k]),
    ensures
        r@.map_values(|s: Rect| span_of(s)) == strips_of(area, covered@),
{
    let ghost bands = covered@.map_values(|b: Rect| span_of(b));
    let left: i64 = area.x as i64;
    let right: i64 = left + area.width as i64;
    let bottom: i64 = area.y as i64 + area.height as i64;
    let ghost y0 = area.y as int;
    let mut y: i64 = area.y as i64;
    let mut out: Vec<Rect> = Vec::new();
    let mut i: usize = 0;
    proof {
        assert(bands.skip(0) =~= bands);
        assert(out@.map_values(|s: Rect| span_of(s)) + strips_from(left as int, right as int, bottom as int, y0, bands)
            =~= strips_from(left as int, right as int, bottom as int, y0, bands));
    }
    while i < covered.len()
        invariant
            i <= covered@.len(),
            y0 == area.y as int,
            bands == covered@.map_values(|b: Rect| span_of(b)),
            forall|k: int| 0 <= k < covered@.len() ==> #[trigger] rect_fits(covered@[k]),
            left == area.x,
            right == area.x + area.width,
            bottom == area.y + area.height,
            rect_fits(area),
            area.y <= y <= bottom,
            out@.map_values(|s: Rect| span_of(s)) + strips_from(
                left as int,
                right as int,
                bottom as int,
                y as int,
                bands.skip(i as int),
            ) == strips_from(left as int, right as int, bottom as int, y0, bands),
        decreases covered@.len() - i,
    {
        let band: Rect = covered[i];
        proof {
            assert(rect_fits(covered@[i as int]));
            assert(bands.skip(i as int)[0] == span_of(band));
            assert(bands.skip(i as int).drop_first() =~= bands.skip(i + 1));
        }
        let top: i64 = clamp_to(band.y as i64, y, bottom);
        let band_bottom: i64 = clamp_to(band.y as i64 + band.height as i64, top, bottom);
        let band_left: i64 = clamp_to(band.x as i64, left, right);
        let band_right: i64 = clamp_to(band.x as i64 + band.width as i64, band_left, right);
        let ghost prior = out@.map_values(|s: Rect| span_of(s));
        push_strip(&mut out, left, y, right - left, top - y);
        push_strip(&mut out, left, top, band_left - left, band_bottom - top);
        push_strip(&mut out, band_right, top, right - band_right, band_bottom - top);
        proof {
            let s0 = keep(left as int, y as int, right - left, top - y);
            let s1 = keep(left as int, top as int, band_left - left, band_bottom - top);
            let s2 = keep(band_right as int, top as int, right - band_right, band_bottom - top);
            let rest = strips_from(left as int, right as int, bottom as int, band_bottom as int, bands.skip(i + 1));
            assert(strips_from(left as int, right as int, bottom as int, y as int, bands.skip(i as int)) == s0 + s1
                + s2 + rest);
            assert(out@.map_values(|s: Rect| span_of(s)) == prior + s0 + s1 + s2);
            assert(prior + s0 + s1 + s2 + rest =~= prior + (s0 + s1 + s2 + rest));
        }
        y = band_bottom;
        i = i + 1;
    }
    push_strip(&mut out, left, y, right - left, bottom - y);
    proof {
        assert(bands.skip(i as int) =~= Seq::<Span4>::empty());
    }
    out
}

} // verus!
