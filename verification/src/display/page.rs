//! A page: a title and a run of text rows, filling its grid.
//!
//! The overlays and the reporting pages are the same picture with different words — a heading,
//! then lines, then blank rows down to the bottom edge so the previous page erases in place.
//! A row is its text and the tone it is drawn in. A body is written as sentences and re-flowed
//! onto whichever grid it lands on; a `\n` starts a new paragraph, so a page can be a short
//! list.
use vstd::prelude::*;
use vstd::string::StringExecFns;
use crate::display::layout::Layout;
use crate::display::wrap::{wrap, wrap_lines};
use crate::text::{chars_of, push_char};

verus! {

/// The tone a row is drawn in.
#[derive(Clone, Copy, PartialEq, Eq, Debug, Structural)]
pub enum Tone {
    /// A heading.
    Title,
    /// The thing the row is for: a selected entry, a current value, a blank row.
    Primary,
    /// Supporting text.
    Dim,
    /// The destructive confirmation's heading.
    Danger,
    /// The button that refuses.
    Deny,
    /// The button that agrees.
    Approve,
    /// A link fact that holds.
    Linked,
    /// A link fact that does not.
    Unlinked,
    /// Something that wants attention now.
    Hot,
}

/// One row of text.
#[derive(Clone, PartialEq, Eq, Debug)]
pub struct Row {
    /// The text.
    pub text: String,
    /// The tone it is drawn in.
    pub tone: Tone,
}

/// Rows as text and tone.
pub open spec fn rows_view(rows: Seq<Row>) -> Seq<(Seq<char>, Tone)> {
    rows.map_values(|r: Row| (r.text@, r.tone))
}

/// `n` blank rows.
pub open spec fn blank_rows(n: nat) -> Seq<(Seq<char>, Tone)> {
    Seq::new(n, |i: int| (Seq::<char>::empty(), Tone::Primary))
}

/// The paragraphs of `s`: its runs between `\n`s (one empty paragraph for empty text).
pub open spec fn paragraphs(s: Seq<char>) -> Seq<Seq<char>>
    decreases s.len(),
{
    if s.len() == 0 {
        seq![Seq::<char>::empty()]
    } else {
        let p = paragraphs(s.drop_last());
        if s.last() == '\n' {
            p.push(Seq::<char>::empty())
        } else {
            p.update(p.len() - 1, p.last().push(s.last()))
        }
    }
}

/// Every paragraph of `ps` wrapped to `cols`, one after another.
pub open spec fn wrapped_paragraphs(ps: Seq<Seq<char>>, cols: nat) -> Seq<Seq<char>>
    decreases ps.len(),
{
    if ps.len() == 0 {
        Seq::empty()
    } else {
        wrapped_paragraphs(ps.drop_last(), cols) + wrap_lines(ps.last(), cols)
    }
}

/// The lines of `body` on `cols` columns: each paragraph wrapped in turn.
pub open spec fn page_lines(body: Seq<char>, cols: nat) -> Seq<Seq<char>> {
    wrapped_paragraphs(paragraphs(body), cols)
}

/// `body`'s lines on `cols` columns in at most `rows` rows, dim, then blank rows: `rows` rows
/// in all.
pub open spec fn body_rows_of(body: Seq<char>, cols: nat, rows: nat) -> Seq<(Seq<char>, Tone)> {
    let w = page_lines(body, cols);
    let k: int = if rows < w.len() { rows as int } else { w.len() as int };
    w.take(k).map_values(|l: Seq<char>| (l, Tone::Dim)) + blank_rows((rows - k) as nat)
}

/// A body fills exactly its rows: the first are its lines, in order and dim, as many as fit;
/// the rest are blank.
pub proof fn a_body_fills_its_rows(body: Seq<char>, cols: nat, rows: nat)
    ensures
        body_rows_of(body, cols, rows).len() == rows,
        forall|k: int| 0 <= k < rows && k < page_lines(body, cols).len() ==> #[trigger] body_rows_of(body, cols, rows)[k]
            == (page_lines(body, cols)[k], Tone::Dim),
        forall|k: int| page_lines(body, cols).len() <= k < rows ==> #[trigger] body_rows_of(body, cols, rows)[k]
            == (Seq::<char>::empty(), Tone::Primary),
{
}

/// A body without a line break is one paragraph: its page lines are its wrapped lines.
pub proof fn one_paragraph_wraps_as_itself(body: Seq<char>, cols: nat)
    requires
        forall|i: int| 0 <= i < body.len() ==> body[i] != '\n',
    ensures
        page_lines(body, cols) == wrap_lines(body, cols),
{
    lemma_single_paragraph(body);
    let ps = paragraphs(body);
    assert(ps.drop_last() =~= Seq::<Seq<char>>::empty());
    assert(wrapped_paragraphs(Seq::<Seq<char>>::empty(), cols) == Seq::<Seq<char>>::empty());
    assert(Seq::<Seq<char>>::empty() + wrap_lines(body, cols) =~= wrap_lines(body, cols));
}

/// Text with no line break is one paragraph, itself.
proof fn lemma_single_paragraph(s: Seq<char>)
    requires
        forall|i: int| 0 <= i < s.len() ==> s[i] != '\n',
    ensures
        paragraphs(s) == seq![s],
    decreases s.len(),
{
    if s.len() > 0 {
        lemma_single_paragraph(s.drop_last());
        assert(s.last() == s[s.len() - 1]);
        assert(s.drop_last().push(s.last()) =~= s);
        assert(seq![s.drop_last()].update(0, s.drop_last().push(s.last())) =~= seq![s]);
    } else {
        assert(s =~= Seq::<char>::empty());
    }
}

/// The lines of `body` on `cols` columns (see [`page_lines`]).
pub fn body_lines(body: &str, cols: usize) -> (r: Vec<String>)
    ensures
        r@.map_values(|l: String| l@) == page_lines(body@, cols as nat),
{
    let cs: Vec<char> = chars_of(body);
    let mut out: Vec<String> = Vec::new();
    let mut cur: String = String::new();
    let mut i: usize = 0;
    while i < cs.len()
        invariant
            i <= cs@.len(),
            cs@ == body@,
            paragraphs(cs@.take(i as int)).len() >= 1,
            out@.map_values(|l: String| l@) == wrapped_paragraphs(paragraphs(cs@.take(i as int)).drop_last(), cols as nat),
            cur@ == paragraphs(cs@.take(i as int)).last(),
        decreases cs@.len() - i,
    {
        let ghost ps = paragraphs(cs@.take(i as int));
        proof {
            assert(cs@.take(i + 1).drop_last() =~= cs@.take(i as int));
            assert(cs@.take(i + 1).last() == cs@[i as int]);
        }
        if cs[i] == '\n' {
            let lines: Vec<String> = wrap(cur.as_str(), cols).into_lines();
            let ghost before = out@.map_values(|l: String| l@);
            let mut j: usize = 0;
            while j < lines.len()
                invariant
                    j <= lines@.len(),
                    out@.map_values(|l: String| l@) == before + lines@.take(j as int).map_values(|l: String| l@),
                decreases lines@.len() - j,
            {
                let ghost mid = out@.map_values(|l: String| l@);
                out.push(lines[j].clone());
                proof {
                    assert(out@.map_values(|l: String| l@) =~= mid.push(lines@[j as int]@));
                    assert(lines@.take(j + 1).map_values(|l: String| l@) =~= lines@.take(j as int).map_values(
                        |l: String| l@,
                    ).push(lines@[j as int]@));
                    assert(before + lines@.take(j + 1).map_values(|l: String| l@) =~= (before + lines@.take(
                        j as int,
                    ).map_values(|l: String| l@)).push(lines@[j as int]@));
                }
                j = j + 1;
            }
            proof {
                assert(lines@.take(lines@.len() as int) =~= lines@);
                let next = paragraphs(cs@.take(i + 1));
                assert(next == ps.push(Seq::<char>::empty()));
                assert(next.drop_last() =~= ps);
                assert(ps == ps.drop_last().push(ps.last()));
                assert(wrapped_paragraphs(ps, cols as nat) == wrapped_paragraphs(ps.drop_last(), cols as nat)
                    + wrap_lines(ps.last(), cols as nat));
            }
            cur = String::new();
        } else {
            push_char(&mut cur, cs[i]);
            proof {
                let next = paragraphs(cs@.take(i + 1));
                assert(next == ps.update(ps.len() - 1, ps.last().push(cs@[i as int])));
                assert(next.drop_last() =~= ps.drop_last());
            }
        }
        i = i + 1;
    }
    proof {
        assert(cs@.take(cs@.len() as int) =~= body@);
    }
    let ghost ps = paragraphs(body@);
    let lines: Vec<String> = wrap(cur.as_str(), cols).into_lines();
    let ghost before = out@.map_values(|l: String| l@);
    let mut j: usize = 0;
    while j < lines.len()
        invariant
            j <= lines@.len(),
            out@.map_values(|l: String| l@) == before + lines@.take(j as int).map_values(|l: String| l@),
        decreases lines@.len() - j,
    {
        let ghost mid = out@.map_values(|l: String| l@);
        out.push(lines[j].clone());
        proof {
            assert(out@.map_values(|l: String| l@) =~= mid.push(lines@[j as int]@));
            assert(lines@.take(j + 1).map_values(|l: String| l@) =~= lines@.take(j as int).map_values(
                |l: String| l@,
            ).push(lines@[j as int]@));
            assert(before + lines@.take(j + 1).map_values(|l: String| l@) =~= (before + lines@.take(
                j as int,
            ).map_values(|l: String| l@)).push(lines@[j as int]@));
        }
        j = j + 1;
    }
    proof {
        assert(lines@.take(lines@.len() as int) =~= lines@);
        assert(ps == ps.drop_last().push(ps.last()));
        assert(wrapped_paragraphs(ps, cols as nat) == wrapped_paragraphs(ps.drop_last(), cols as nat)
            + wrap_lines(ps.last(), cols as nat));
    }
    out
}

/// Append `n` blank rows to `out`.
pub fn push_blanks(out: &mut Vec<Row>, n: usize)
    ensures
        rows_view(final(out)@) == rows_view(old(out)@) + blank_rows(n as nat),
{
    let ghost start = rows_view(out@);
    let mut i: usize = 0;
    while i < n
        invariant
            i <= n,
            rows_view(out@) == start + blank_rows(i as nat),
        decreases n - i,
    {
        let ghost before = rows_view(out@);
        out.push(Row { text: String::new(), tone: Tone::Primary });
        proof {
            assert(rows_view(out@) =~= before.push((Seq::<char>::empty(), Tone::Primary)));
            assert(blank_rows((i + 1) as nat) =~= blank_rows(i as nat).push((Seq::<char>::empty(), Tone::Primary)));
            assert(start + blank_rows((i + 1) as nat) =~= (start + blank_rows(i as nat)).push((Seq::<char>::empty(), Tone::Primary)));
        }
        i = i + 1;
    }
}

/// Append `body`, wrapped to `cols`, in `rows` rows to `out` (see [`body_rows_of`]).
pub fn push_body(out: &mut Vec<Row>, body: &str, cols: usize, rows: usize)
    ensures
        rows_view(final(out)@) == rows_view(old(out)@) + body_rows_of(body@, cols as nat, rows as nat),
{
    let ghost start = rows_view(out@);
    let lines: Vec<String> = body_lines(body, cols);
    let ghost w = page_lines(body@, cols as nat);
    let k: usize = if rows < lines.len() { rows } else { lines.len() };
    let mut i: usize = 0;
    while i < k
        invariant
            i <= k,
            k <= lines@.len(),
            k == (if rows < w.len() { rows as int } else { w.len() as int }),
            lines@.map_values(|s: String| s@) == w,
            rows_view(out@) == start + w.take(i as int).map_values(|l: Seq<char>| (l, Tone::Dim)),
        decreases k - i,
    {
        let ghost before = rows_view(out@);
        let text: String = lines[i].clone();
        out.push(Row { text, tone: Tone::Dim });
        proof {
            assert(lines@[i as int]@ == w[i as int]);
            assert(rows_view(out@) =~= before.push((w[i as int], Tone::Dim)));
            assert(w.take(i + 1).map_values(|l: Seq<char>| (l, Tone::Dim)) =~= w.take(i as int).map_values(
                |l: Seq<char>| (l, Tone::Dim),
            ).push((w[i as int], Tone::Dim)));
            assert(start + w.take(i + 1).map_values(|l: Seq<char>| (l, Tone::Dim)) =~= (start + w.take(
                i as int,
            ).map_values(|l: Seq<char>| (l, Tone::Dim))).push((w[i as int], Tone::Dim)));
        }
        i = i + 1;
    }
    push_blanks(out, rows - k);
    proof {
        assert(rows_view(out@) =~= start + body_rows_of(body@, cols as nat, rows as nat));
    }
}

/// Append a row of `text` in `tone` to `out`.
pub fn push_row(out: &mut Vec<Row>, text: String, tone: Tone)
    ensures
        rows_view(final(out)@) == rows_view(old(out)@).push((text@, tone)),
{
    let ghost before = rows_view(out@);
    let ghost t = text@;
    out.push(Row { text, tone });
    proof {
        assert(rows_view(out@) =~= before.push((t, tone)));
    }
}

/// A page on a grid of `rows` rows of `cols` columns: the title on the first row, then the
/// body's lines, then blank rows to the bottom.
pub open spec fn page_rows_of(title: Seq<char>, body: Seq<char>, cols: nat, rows: nat) -> Seq<(Seq<char>, Tone)> {
    seq![(title, Tone::Title)] + body_rows_of(body, cols, (rows - 1) as nat)
}

/// The rows of a titled page of `body` on `layout`.
pub fn page_rows(layout: &Layout, title: &str, body: &str) -> (r: Vec<Row>)
    requires
        layout.rows >= 1,
    ensures
        rows_view(r@) == page_rows_of(title@, body@, layout.cols as nat, layout.rows as nat),
{
    let mut out: Vec<Row> = Vec::new();
    push_row(&mut out, String::from_str(title), Tone::Title);
    push_body(&mut out, body, layout.cols, layout.rows - 1);
    out
}

} // verus!
