//! Word wrapping, and cutting a value to the field it is drawn in.
//!
//! The transcript, the prompt hint and the info pages arrive as one run of text and land on a
//! panel that is twenty-four characters wide (thirteen, held upright). [`wrap`] yields the next
//! line that fits, greedily: it breaks at the last space that fits; a single word longer than
//! the column count — a path, a URL — has no space to break at, so it is hard split at the
//! column boundary rather than allowed to run off the glass. Leading whitespace is dropped at
//! every break, and a line never ends in whitespace, a hard split included.
use vstd::prelude::*;
use crate::text::{chars_of, push_char};

verus! {

/// Whether `c` has the Unicode `White_Space` property — what `char::is_whitespace` answers.
pub open spec fn is_white(c: char) -> bool {
    let u = c as u32;
    ||| 0x9 <= u <= 0xD
    ||| u == 0x20
    ||| u == 0x85
    ||| u == 0xA0
    ||| u == 0x1680
    ||| 0x2000 <= u <= 0x200A
    ||| u == 0x2028
    ||| u == 0x2029
    ||| u == 0x202F
    ||| u == 0x205F
    ||| u == 0x3000
}

/// `s` without its leading whitespace.
pub open spec fn trim_start(s: Seq<char>) -> Seq<char>
    decreases s.len(),
{
    if s.len() > 0 && is_white(s[0]) {
        trim_start(s.drop_first())
    } else {
        s
    }
}

/// `s` without its trailing whitespace.
pub open spec fn trim_end(s: Seq<char>) -> Seq<char>
    decreases s.len(),
{
    if s.len() > 0 && is_white(s.last()) {
        trim_end(s.drop_last())
    } else {
        s
    }
}

/// The index of the last space among the first `n` characters of `s`.
pub open spec fn last_space_before(s: Seq<char>, n: nat) -> Option<nat>
    decreases n,
{
    if n == 0 {
        None
    } else if s[n - 1] == ' ' {
        Some((n - 1) as nat)
    } else {
        last_space_before(s, (n - 1) as nat)
    }
}

/// The next line of `rest` in `cols` columns, and what is left after it; `None` when nothing
/// is left (or nothing fits in no columns). The break is the last space that fits: one among
/// the first `cols` characters, or the one just after a full line, which the break consumes.
pub open spec fn next_line(rest: Seq<char>, cols: nat) -> Option<(Seq<char>, Seq<char>)> {
    if cols == 0 {
        None
    } else {
        let r = trim_start(rest);
        if r.len() == 0 {
            None
        } else if r.len() <= cols {
            Some((r, Seq::empty()))
        } else {
            match last_space_before(r, cols + 1) {
                Some(sp) => Some((trim_end(r.take(sp as int)), r.skip(sp as int + 1))),
                None => Some((trim_end(r.take(cols as int)), r.skip(cols as int))),
            }
        }
    }
}

/// Every line `rest` wraps to in `cols` columns.
pub open spec fn wrap_lines(rest: Seq<char>, cols: nat) -> Seq<Seq<char>>
    decreases rest.len(),
{
    match next_line(rest, cols) {
        None => Seq::empty(),
        Some((line, after)) => if after.len() < rest.len() {
            seq![line] + wrap_lines(after, cols)
        } else {
            seq![line]
        },
    }
}

/// The characters of `s` that are not whitespace, in order.
pub open spec fn ink(s: Seq<char>) -> Seq<char>
    decreases s.len(),
{
    if s.len() == 0 {
        Seq::empty()
    } else {
        ink(s.drop_last()) + if is_white(s.last()) {
            Seq::<char>::empty()
        } else {
            seq![s.last()]
        }
    }
}

/// The lines, one after another.
pub open spec fn joined(lines: Seq<Seq<char>>) -> Seq<char>
    decreases lines.len(),
{
    if lines.len() == 0 {
        Seq::empty()
    } else {
        lines[0] + joined(lines.drop_first())
    }
}

/// Ink distributes over concatenation.
proof fn lemma_ink_add(a: Seq<char>, b: Seq<char>)
    ensures
        ink(a + b) == ink(a) + ink(b),
    decreases b.len(),
{
    if b.len() == 0 {
        assert(a + b == a);
        assert(ink(a) + Seq::<char>::empty() == ink(a));
    } else {
        lemma_ink_add(a, b.drop_last());
        assert((a + b).drop_last() == a + b.drop_last());
        assert((a + b).last() == b.last());
    }
}

/// A lone whitespace character has no ink.
proof fn lemma_ink_white(c: char)
    requires
        is_white(c),
    ensures
        ink(seq![c]) == Seq::<char>::empty(),
{
    assert(seq![c].drop_last() =~= Seq::<char>::empty());
    assert(seq![c].last() == c);
    assert(ink(Seq::<char>::empty()) == Seq::<char>::empty());
    assert(Seq::<char>::empty() + Seq::<char>::empty() =~= Seq::<char>::empty());
}

/// Trimming leading whitespace loses no ink, and leaves a non-whitespace first character.
proof fn lemma_trim_start(s: Seq<char>)
    ensures
        ink(trim_start(s)) == ink(s),
        trim_start(s).len() <= s.len(),
        trim_start(s).len() > 0 ==> !is_white(trim_start(s)[0]),
        trim_start(s) == s.skip(s.len() - trim_start(s).len()),
    decreases s.len(),
{
    if s.len() > 0 && is_white(s[0]) {
        lemma_trim_start(s.drop_first());
        assert(s == seq![s[0]] + s.drop_first());
        lemma_ink_add(seq![s[0]], s.drop_first());
        lemma_ink_white(s[0]);
        assert(trim_start(s) == s.drop_first().skip(s.drop_first().len() - trim_start(s).len()));
        assert(s.drop_first().skip(s.drop_first().len() - trim_start(s).len()) =~= s.skip(s.len() - trim_start(s).len()));
    } else {
        assert(s.skip(0) == s);
    }
}

/// Trimming trailing whitespace loses no ink, and keeps a non-whitespace first character.
proof fn lemma_trim_end(s: Seq<char>)
    ensures
        ink(trim_end(s)) == ink(s),
        trim_end(s).len() <= s.len(),
        s.len() > 0 && !is_white(s[0]) ==> trim_end(s).len() > 0,
        trim_end(s) == s.take(trim_end(s).len() as int),
    decreases s.len(),
{
    if s.len() > 0 && is_white(s.last()) {
        lemma_trim_end(s.drop_last());
        assert(ink(s) == ink(s.drop_last()));
        if s.len() > 1 {
            assert(s.drop_last()[0] == s[0]);
        }
        assert(s.drop_last().take(trim_end(s).len() as int) =~= s.take(trim_end(s).len() as int));
    } else {
        assert(s.take(s.len() as int) == s);
    }
}

/// What `last_space_before` finds is a space before `n`.
proof fn lemma_last_space(s: Seq<char>, n: nat)
    requires
        n <= s.len(),
    ensures
        last_space_before(s, n) matches Some(sp) ==> sp < n && s[sp as int] == ' ',
    decreases n,
{
    if n > 0 && s[n - 1] != ' ' {
        lemma_last_space(s, (n - 1) as nat);
    }
}

/// A line is non-empty, fits its columns, loses no ink with the space it breaks at, and
/// leaves strictly less behind.
proof fn lemma_next_line(rest: Seq<char>, cols: nat)
    ensures
        next_line(rest, cols) matches Some((line, after)) ==> {
            &&& 0 < line.len() <= cols
            &&& after.len() < rest.len()
            &&& ink(line) + ink(after) == ink(rest)
        },
        next_line(rest, cols) is None && cols > 0 ==> ink(rest) == Seq::<char>::empty(),
        next_line(rest, cols) matches Some((line, after)) ==> {
            let k0 = rest.len() - trim_start(rest).len();
            &&& after == rest.skip(rest.len() - after.len())
            &&& 0 <= k0
            &&& k0 + line.len() <= rest.len() - after.len()
            &&& line == rest.subrange(k0, k0 + line.len())
            &&& !is_white(line[0])
        },
{
    lemma_trim_start(rest);
    let r = trim_start(rest);
    if cols > 0 && r.len() > cols {
        lemma_last_space(r, cols + 1);
        match last_space_before(r, cols + 1) {
            Some(sp) => {
                let head = r.take(sp as int);
                let tail = r.skip(sp as int + 1);
                assert(r == head + seq![' '] + tail);
                lemma_ink_add(head + seq![' '], tail);
                lemma_ink_add(head, seq![' ']);
                lemma_ink_white(' ');
                assert(ink(head + seq![' ']) == ink(head) + Seq::<char>::empty());
                lemma_trim_end(head);
                if sp == 0 {
                    assert(r[0] == ' ');
                }
                assert(head[0] == r[0]);
                let line = trim_end(head);
                let k0 = rest.len() - r.len();
                assert(line =~= rest.subrange(k0, k0 + line.len()));
                assert(tail =~= rest.skip(rest.len() - tail.len()));
                assert(line[0] == r[0]);
            },
            None => {
                let head = r.take(cols as int);
                let tail = r.skip(cols as int);
                assert(r == head + tail);
                lemma_ink_add(head, tail);
                assert(head[0] == r[0]);
                lemma_trim_end(head);
                let line = trim_end(head);
                let k0 = rest.len() - r.len();
                assert(line =~= rest.subrange(k0, k0 + line.len()));
                assert(tail =~= rest.skip(rest.len() - tail.len()));
                assert(line[0] == r[0]);
            },
        }
    } else if cols > 0 && r.len() > 0 {
        assert(ink(Seq::<char>::empty()) == Seq::<char>::empty());
        assert(ink(r) + Seq::<char>::empty() == ink(r));
        let k0 = rest.len() - r.len();
        assert(r =~= rest.subrange(k0, k0 + r.len()));
        assert(Seq::<char>::empty() =~= rest.skip(rest.len() as int));
    } else if cols > 0 {
        assert(r.len() == 0);
        assert(ink(r) == Seq::<char>::empty());
    }
}

/// Wrapping is total and loses nothing but whitespace: in a positive number of columns,
/// every line is non-empty and no wider than the columns, and the lines, one after another,
/// hold exactly the input's non-whitespace characters, in order.
pub proof fn wrap_preserves_ink(text: Seq<char>, cols: nat)
    requires
        cols > 0,
    ensures
        forall|i: int| 0 <= i < wrap_lines(text, cols).len() ==> 0 < (#[trigger] wrap_lines(text, cols)[i]).len() <= cols,
        ink(joined(wrap_lines(text, cols))) == ink(text),
    decreases text.len(),
{
    lemma_next_line(text, cols);
    match next_line(text, cols) {
        None => {
            assert(joined(Seq::<Seq<char>>::empty()) == Seq::<char>::empty());
            assert(ink(Seq::<char>::empty()) == Seq::<char>::empty());
        },
        Some((line, after)) => {
            wrap_preserves_ink(after, cols);
            let ls = wrap_lines(text, cols);
            assert(ls == seq![line] + wrap_lines(after, cols));
            assert(ls[0] == line);
            assert(ls.drop_first() == wrap_lines(after, cols));
            assert forall|i: int| 0 <= i < ls.len() implies 0 < (#[trigger] ls[i]).len() <= cols by {
                if i > 0 {
                    assert(ls[i] == wrap_lines(after, cols)[i - 1]);
                }
            }
            lemma_ink_add(line, joined(wrap_lines(after, cols)));
        },
    }
}


/// Where each line of `wrap_lines(rest, cols)` begins in `rest`.
pub open spec fn line_starts(rest: Seq<char>, cols: nat) -> Seq<int>
    decreases rest.len(),
{
    match next_line(rest, cols) {
        None => Seq::empty(),
        Some((line, after)) => {
            let k0 = rest.len() - trim_start(rest).len();
            if after.len() < rest.len() {
                let d = rest.len() - after.len();
                seq![k0] + line_starts(after, cols).map_values(|k: int| k + d)
            } else {
                seq![k0]
            }
        },
    }
}

/// Every line is a piece of the input: wrapped in a positive number of columns, the `i`-th
/// line is the input's characters from `line_starts(text, cols)[i]` on, it never begins with
/// whitespace, the lines come in the input's order without overlapping, and there are no more
/// of them than the input has characters.
pub proof fn wrap_lines_are_slices(text: Seq<char>, cols: nat)
    requires
        cols > 0,
    ensures
        line_starts(text, cols).len() == wrap_lines(text, cols).len(),
        wrap_lines(text, cols).len() <= text.len(),
        forall|i: int| 0 <= i < wrap_lines(text, cols).len() ==> {
            let st = #[trigger] line_starts(text, cols)[i];
            let line = wrap_lines(text, cols)[i];
            &&& 0 <= st
            &&& st + line.len() <= text.len()
            &&& line == text.subrange(st, st + line.len())
            &&& !is_white(line[0])
        },
        forall|i: int, j: int| 0 <= i < j < wrap_lines(text, cols).len() ==>
            #[trigger] line_starts(text, cols)[i] + wrap_lines(text, cols)[i].len() <= #[trigger] line_starts(text, cols)[j],
    decreases text.len(),
{
    lemma_next_line(text, cols);
    match next_line(text, cols) {
        None => {},
        Some((line, after)) => {
            wrap_lines_are_slices(after, cols);
            lemma_next_line(after, cols);
            let d = text.len() - after.len();
            let k0 = text.len() - trim_start(text).len();
            let ls = wrap_lines(text, cols);
            let st = line_starts(text, cols);
            let ls2 = wrap_lines(after, cols);
            let st2 = line_starts(after, cols);
            assert(ls == seq![line] + ls2);
            assert(st == seq![k0] + st2.map_values(|k: int| k + d));
            assert forall|i: int| 0 <= i < ls.len() implies {
                let s0 = #[trigger] st[i];
                let l = ls[i];
                &&& 0 <= s0
                &&& s0 + l.len() <= text.len()
                &&& l == text.subrange(s0, s0 + l.len())
                &&& !is_white(l[0])
            } by {
                if i > 0 {
                    assert(ls[i] == ls2[i - 1]);
                    assert(st[i] == st2[i - 1] + d);
                    let s1 = st2[i - 1];
                    let l = ls2[i - 1];
                    assert(l == after.subrange(s1, s1 + l.len()));
                    assert(after.subrange(s1, s1 + l.len()) =~= text.subrange(s1 + d, s1 + d + l.len()));
                }
            }
            assert forall|i: int, j: int| 0 <= i < j < ls.len() implies
                #[trigger] st[i] + ls[i].len() <= #[trigger] st[j] by {
                assert(st[j] == st2[j - 1] + d);
                if i > 0 {
                    assert(st[i] == st2[i - 1] + d);
                    assert(ls[i] == ls2[i - 1]);
                    assert(st2[i - 1] + ls2[i - 1].len() <= st2[j - 1]);
                } else {
                    assert(0 <= st2[j - 1]);
                }
            }
        },
    }
}

/// `s` without its spaces.
pub open spec fn spaceless(s: Seq<char>) -> Seq<char>
    decreases s.len(),
{
    if s.len() == 0 {
        Seq::empty()
    } else {
        spaceless(s.drop_last()) + if s.last() == ' ' {
            Seq::<char>::empty()
        } else {
            seq![s.last()]
        }
    }
}

/// Whether the only whitespace in `s` is the plain space.
pub open spec fn blank_is_space(s: Seq<char>) -> bool {
    forall|k: int| 0 <= k < s.len() && is_white(#[trigger] s[k]) ==> s[k] == ' '
}

/// Where the only whitespace is the plain space, the ink is what is left without spaces.
proof fn lemma_ink_spaceless(s: Seq<char>)
    requires
        blank_is_space(s),
    ensures
        ink(s) == spaceless(s),
    decreases s.len(),
{
    if s.len() > 0 {
        assert(blank_is_space(s.drop_last())) by {
            assert forall|k: int| 0 <= k < s.drop_last().len() && is_white(#[trigger] s.drop_last()[k]) implies s.drop_last()[k] == ' ' by {
                assert(s.drop_last()[k] == s[k]);
            }
        }
        lemma_ink_spaceless(s.drop_last());
        assert(s.last() == s[s.len() - 1]);
    }
}

/// Lines whose only whitespace is the space join to text of the same kind.
proof fn lemma_joined_blank_is_space(ls: Seq<Seq<char>>)
    requires
        forall|i: int| 0 <= i < ls.len() ==> blank_is_space(#[trigger] ls[i]),
    ensures
        blank_is_space(joined(ls)),
    decreases ls.len(),
{
    if ls.len() > 0 {
        lemma_joined_blank_is_space(ls.drop_first());
        let a = ls[0];
        let b = joined(ls.drop_first());
        assert(blank_is_space(a));
        assert forall|k: int| 0 <= k < (a + b).len() && is_white(#[trigger] (a + b)[k]) implies (a + b)[k] == ' ' by {
            if k < a.len() {
                assert((a + b)[k] == a[k]);
            } else {
                assert((a + b)[k] == b[k - a.len()]);
            }
        }
    }
}

/// Wrapping text whose only whitespace is the space loses nothing but spaces: the lines, one
/// after another and with their spaces taken out, are the input with its spaces taken out.
pub proof fn wrap_loses_only_spaces(text: Seq<char>, cols: nat)
    requires
        cols > 0,
        blank_is_space(text),
    ensures
        spaceless(joined(wrap_lines(text, cols))) == spaceless(text),
{
    wrap_preserves_ink(text, cols);
    wrap_lines_are_slices(text, cols);
    let ls = wrap_lines(text, cols);
    assert forall|i: int| 0 <= i < ls.len() implies blank_is_space(#[trigger] ls[i]) by {
        let st = line_starts(text, cols)[i];
        assert(ls[i] == text.subrange(st, st + ls[i].len()));
        assert forall|k: int| 0 <= k < ls[i].len() && is_white(#[trigger] ls[i][k]) implies ls[i][k] == ' ' by {
            assert(ls[i][k] == text[st + k]);
        }
    }
    lemma_joined_blank_is_space(ls);
    lemma_ink_spaceless(joined(ls));
    lemma_ink_spaceless(text);
}


/// Whether `c` is whitespace (`char::is_whitespace`).
pub fn is_whitespace(c: char) -> (r: bool)
    ensures
        r == is_white(c),
{
    let u: u32 = c as u32;
    (0x9 <= u && u <= 0xD) || u == 0x20 || u == 0x85 || u == 0xA0 || u == 0x1680 || (0x2000 <= u
        && u <= 0x200A) || u == 0x2028 || u == 0x2029 || u == 0x202F || u == 0x205F || u == 0x3000
}

/// The characters `cs[from..to]` as a string.
fn string_range(cs: &Vec<char>, from: usize, to: usize) -> (r: String)
    requires
        from <= to <= cs@.len(),
    ensures
        r@ == cs@.subrange(from as int, to as int),
{
    let mut out: String = String::new();
    let mut i: usize = from;
    while i < to
        invariant
            from <= i <= to,
            to <= cs@.len(),
            out@ == cs@.subrange(from as int, i as int),
        decreases to - i,
    {
        push_char(&mut out, cs[i]);
        proof {
            assert(cs@.subrange(from as int, i + 1) == cs@.subrange(from as int, i as int).push(cs@[i as int]));
        }
        i = i + 1;
    }
    out
}

/// The lines [`wrap`] yields, one call at a time.
pub struct Wrap {
    text: Vec<char>,
    pos: usize,
    cols: usize,
}

impl Wrap {
    /// What is left to wrap.
    pub closed spec fn rest(&self) -> Seq<char> {
        self.text@.skip(self.pos as int)
    }

    /// The column count.
    pub closed spec fn columns(&self) -> nat {
        self.cols as nat
    }

    /// The iterator's invariant: it stands within its text.
    pub closed spec fn wf(&self) -> bool {
        self.pos <= self.text@.len()
    }

    /// The next line that fits, or `None` when nothing is left (or no column is available).
    pub fn next(&mut self) -> (r: Option<String>)
        requires
            old(self).wf(),
        ensures
            final(self).wf(),
            final(self).columns() == old(self).columns(),
            match next_line(old(self).rest(), old(self).columns()) {
                Some((line, after)) => r matches Some(s) && s@ == line && final(self).rest() == after,
                None => r is None && (old(self).columns() > 0 ==> final(self).rest() == Seq::<char>::empty()),
            },
    {
        if self.cols == 0 {
            return None;
        }
        let n: usize = self.text.len();
        let ghost rest = self.text@.skip(self.pos as int);
        let mut p: usize = self.pos;
        while p < n && is_whitespace(self.text[p])
            invariant
                self.pos <= p <= n,
                n == self.text@.len(),
                rest == self.text@.skip(self.pos as int),
                trim_start(rest) == trim_start(self.text@.skip(p as int)),
            decreases n - p,
        {
            proof {
                assert(self.text@.skip(p as int).drop_first() =~= self.text@.skip(p + 1));
            }
            p = p + 1;
        }
        let ghost r = self.text@.skip(p as int);
        proof {
            if p < n {
                assert(r[0] == self.text@[p as int]);
            }
            assert(trim_start(r) == r);
        }
        if p == n {
            self.pos = n;
            proof {
                assert(r.len() == 0);
                assert(self.text@.skip(n as int) =~= Seq::<char>::empty());
            }
            return None;
        }
        let cols: usize = self.cols;
        if n - p <= cols {
            let line: String = string_range(&self.text, p, n);
            self.pos = n;
            proof {
                assert(line@ =~= r);
                assert(self.text@.skip(n as int) =~= Seq::<char>::empty());
            }
            return Some(line);
        }
        let mut last: Option<usize> = None;
        let mut k: usize = 0;
        while k <= cols
            invariant
                k <= cols + 1,
                p + cols < n,
                n == self.text@.len(),
                r == self.text@.skip(p as int),
                match last {
                    Some(sp) => last_space_before(r, k as nat) == Some(sp as nat),
                    None => last_space_before(r, k as nat) is None,
                },
            decreases cols + 1 - k,
        {
            proof {
                assert(r[k as int] == self.text@[p + k]);
            }
            if self.text[p + k] == ' ' {
                last = Some(k);
            }
            k = k + 1;
        }
        match last {
            Some(sp) => {
                proof {
                    lemma_last_space(r, (cols + 1) as nat);
                }
                let mut e: usize = sp;
                while e > 0 && is_whitespace(self.text[p + e - 1])
                    invariant
                        e <= sp <= cols,
                        p + cols < n,
                        n == self.text@.len(),
                        r == self.text@.skip(p as int),
                        trim_end(r.take(sp as int)) == trim_end(r.take(e as int)),
                    decreases e,
                {
                    proof {
                        assert(r.take(e as int).last() == self.text@[p + e - 1]);
                        assert(r.take(e as int).drop_last() =~= r.take(e - 1));
                    }
                    e = e - 1;
                }
                proof {
                    if e > 0 {
                        assert(r.take(e as int).last() == self.text@[p + e - 1]);
                    }
                    assert(trim_end(r.take(e as int)) == r.take(e as int));
                }
                let line: String = string_range(&self.text, p, p + e);
                self.pos = p + sp + 1;
                proof {
                    assert(line@ =~= r.take(e as int));
                    assert(self.text@.skip(self.pos as int) =~= r.skip(sp as int + 1));
                }
                Some(line)
            },
            None => {
                let mut e: usize = cols;
                while e > 0 && is_whitespace(self.text[p + e - 1])
                    invariant
                        e <= cols,
                        p + cols < n,
                        n == self.text@.len(),
                        r == self.text@.skip(p as int),
                        trim_end(r.take(cols as int)) == trim_end(r.take(e as int)),
                    decreases e,
                {
                    proof {
                        assert(r.take(e as int).last() == self.text@[p + e - 1]);
                        assert(r.take(e as int).drop_last() =~= r.take(e - 1));
                    }
                    e = e - 1;
                }
                proof {
                    if e > 0 {
                        assert(r.take(e as int).last() == self.text@[p + e - 1]);
                    }
                    assert(trim_end(r.take(e as int)) == r.take(e as int));
                }
                let line: String = string_range(&self.text, p, p + e);
                self.pos = p + cols;
                proof {
                    assert(line@ =~= r.take(e as int));
                    assert(self.text@.skip(self.pos as int) =~= r.skip(cols as int));
                }
                Some(line)
            },
        }
    }

    /// Every line left, in order.
    pub fn into_lines(self) -> (r: Vec<String>)
        requires
            self.wf(),
        ensures
            r@.map_values(|s: String| s@) == wrap_lines(self.rest(), self.columns()),
    {
        let mut it = self;
        let ghost start = it.rest();
        let mut out: Vec<String> = Vec::new();
        loop
            invariant
                it.wf(),
                it.columns() == self.columns(),
                start == self.rest(),
                out@.map_values(|s: String| s@) + wrap_lines(it.rest(), it.columns()) == wrap_lines(start, self.columns()),
            decreases it.rest().len(),
        {
            let ghost before = it.rest();
            proof {
                lemma_next_line(before, it.columns());
            }
            match it.next() {
                Some(line) => {
                    let ghost seen = out@.map_values(|s: String| s@);
                    out.push(line);
                    proof {
                        assert(out@.map_values(|s: String| s@) =~= seen.push(line@));
                        assert(wrap_lines(before, it.columns()) == seq![line@] + wrap_lines(it.rest(), it.columns()));
                        assert(seen.push(line@) + wrap_lines(it.rest(), it.columns()) =~= seen + (seq![line@] + wrap_lines(it.rest(), it.columns())));
                    }
                },
                None => {
                    proof {
                        assert(wrap_lines(before, it.columns()) == Seq::<Seq<char>>::empty());
                        assert(out@.map_values(|s: String| s@) + Seq::<Seq<char>>::empty() =~= out@.map_values(|s: String| s@));
                    }
                    return out;
                },
            }
        }
    }
}

/// Wrap `text` into lines of at most `cols` characters. A `cols` of `0` yields nothing: no
/// line fits in no columns.
pub fn wrap(text: &str, cols: usize) -> (r: Wrap)
    ensures
        r.wf(),
        r.rest() == text@,
        r.columns() == cols,
{
    let w = Wrap { text: chars_of(text), pos: 0, cols };
    proof {
        assert(w.text@.skip(0) =~= text@);
    }
    w
}


/// The bytes `c` takes in UTF-8.
pub open spec fn char_width(c: char) -> nat {
    let u = c as u32;
    if u < 0x80 {
        1
    } else if u < 0x800 {
        2
    } else if u < 0x10000 {
        3
    } else {
        4
    }
}

/// The bytes `s` takes in UTF-8.
pub open spec fn utf8_len(s: Seq<char>) -> nat
    decreases s.len(),
{
    if s.len() == 0 {
        0
    } else {
        utf8_len(s.drop_last()) + char_width(s.last())
    }
}

/// A value cut to the field it is drawn in: the longest run of its leading characters whose
/// UTF-8 encoding fits in the given number of bytes, so a multi-byte character straddling the
/// edge is dropped whole rather than sliced into bytes that are not a string.
pub struct Cut<'a>(
    /// The value.
    pub &'a str,
    /// The bytes it may occupy.
    pub usize,
);

/// The bytes `c` takes in UTF-8 (`char::len_utf8`).
fn width_of(c: char) -> (r: usize)
    ensures
        r == char_width(c),
{
    let u: u32 = c as u32;
    if u < 0x80 {
        1
    } else if u < 0x800 {
        2
    } else if u < 0x10000 {
        3
    } else {
        4
    }
}

impl<'a> Cut<'a> {
    /// The cut value, as text.
    pub fn to_string(&self) -> (r: String)
        ensures
            r@.len() <= self.0@.len(),
            r@ == self.0@.take(r@.len() as int),
            utf8_len(r@) <= self.1,
            r@.len() < self.0@.len() ==> utf8_len(self.0@.take(r@.len() as int + 1)) > self.1,
    {
        let cs: Vec<char> = chars_of(self.0);
        let limit: usize = self.1;
        let mut out: String = String::new();
        let mut used: usize = 0;
        let mut i: usize = 0;
        while i < cs.len()
            invariant
                i <= cs@.len(),
                cs@ == self.0@,
                limit == self.1,
                out@ == cs@.take(i as int),
                used == utf8_len(cs@.take(i as int)),
                used <= limit,
            decreases cs@.len() - i,
        {
            let w: usize = width_of(cs[i]);
            proof {
                assert(cs@.take(i + 1).drop_last() =~= cs@.take(i as int));
                assert(cs@.take(i + 1).last() == cs@[i as int]);
            }
            if w > limit - used {
                return out;
            }
            push_char(&mut out, cs[i]);
            used = used + w;
            proof {
                assert(cs@.take(i + 1) =~= cs@.take(i as int).push(cs@[i as int]));
            }
            i = i + 1;
        }
        proof {
            assert(cs@.take(cs@.len() as int) =~= cs@);
        }
        out
    }
}

} // verus!
