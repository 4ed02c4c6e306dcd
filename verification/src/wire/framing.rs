//! Line framing over the NUS byte stream, with truncation made a typed error.
//!
//! The terminator is `\n` or `\r`; empty lines are dropped; an accepted line must begin with
//! `{` (no trimming); the line buffer holds [`LINE_CAPACITY`] usable bytes. Overrunning the
//! line buffer is [`FrameError::LineTooLong`] and overrunning the receive ring is
//! [`FrameError::RxOverflow`] — never a silent drop.
use std::collections::VecDeque;
use vstd::prelude::*;

verus! {

/// The usable line-buffer capacity, in bytes.
pub const LINE_CAPACITY: usize = 1023;

/// The usable BLE receive-ring capacity, in bytes.
pub const RING_CAPACITY: usize = 2047;

/// Why framing could not accept some bytes.
#[derive(Clone, Copy, PartialEq, Eq, Debug, Structural)]
pub enum FrameError {
    /// A line exceeded [`LINE_CAPACITY`] before its terminator.
    LineTooLong,
    /// The receive ring could not hold the pushed bytes.
    RxOverflow,
}

impl FrameError {
    /// The human description of the error, as a log line reads it.
    pub fn describe(&self) -> (r: &'static str)
        ensures
            r@ == (match *self {
                FrameError::LineTooLong => "line exceeded 1023 bytes"@,
                FrameError::RxOverflow => "receive ring exceeded 2047 bytes"@,
            }),
    {
        match self {
            FrameError::LineTooLong => "line exceeded 1023 bytes",
            FrameError::RxOverflow => "receive ring exceeded 2047 bytes",
        }
    }
}

/// Whether `b` ends a line.
pub open spec fn is_terminator(b: u8) -> bool {
    b == 10u8 || b == 13u8
}

/// Whether a completed line is accepted: non-empty and starting with `{`.
pub open spec fn is_accepted(line: Seq<u8>) -> bool {
    line.len() > 0 && line[0] == 123u8
}

/// The framer's state after some bytes: the pending line, the lines emitted so far, and
/// whether the pending line overran the buffer.
pub struct FrameRun {
    pub pending: Seq<u8>,
    pub emitted: Seq<Seq<u8>>,
    pub overran: bool,
}

/// One byte of framing.
pub open spec fn frame_step(s: FrameRun, b: u8) -> FrameRun {
    if s.overran {
        s
    } else if is_terminator(b) {
        if is_accepted(s.pending) {
            FrameRun { pending: Seq::empty(), emitted: s.emitted.push(s.pending), overran: false }
        } else {
            FrameRun { pending: Seq::empty(), emitted: s.emitted, overran: false }
        }
    } else if s.pending.len() >= LINE_CAPACITY {
        FrameRun { pending: Seq::empty(), emitted: s.emitted, overran: true }
    } else {
        FrameRun { pending: s.pending.push(b), emitted: s.emitted, overran: false }
    }
}

/// Framing the first `n` bytes of `chunk`, starting from the pending line `pending`.
pub open spec fn frame_run(pending: Seq<u8>, chunk: Seq<u8>, n: nat) -> FrameRun
    decreases n,
{
    if n == 0 {
        FrameRun { pending, emitted: Seq::empty(), overran: false }
    } else {
        frame_step(frame_run(pending, chunk, (n - 1) as nat), chunk[n - 1])
    }
}

/// The lines of a framer's output, as byte sequences.
pub open spec fn lines_view(lines: Seq<Vec<u8>>) -> Seq<Seq<u8>> {
    lines.map_values(|l: Vec<u8>| l@)
}

/// A line framer: feeds raw bytes in, yields complete accepted lines out.
#[derive(Debug, Default)]
pub struct Framer {
    line: Vec<u8>,
}

impl Framer {
    /// The pending (unterminated) bytes.
    pub closed spec fn pending(&self) -> Seq<u8> {
        self.line@
    }

    /// The framer's invariant: the pending line never exceeds the capacity and holds no
    /// terminator.
    pub closed spec fn wf(&self) -> bool {
        &&& self.line@.len() <= LINE_CAPACITY
        &&& no_terminator(self.line@)
    }

    /// A fresh, empty framer.
    pub fn new() -> (r: Self)
        ensures
            r.wf(),
            r.pending() == Seq::<u8>::empty(),
    {
        Framer { line: Vec::new() }
    }

    /// Feed a chunk of raw bytes; return every complete, accepted line it completed, or
    /// [`FrameError::LineTooLong`] (discarding the pending line) when a line overran.
    pub fn push(&mut self, chunk: &[u8]) -> (r: Result<Vec<Vec<u8>>, FrameError>)
        requires
            old(self).wf(),
        ensures
            final(self).wf(),
            ({
                let run = frame_run(old(self).pending(), chunk@, chunk@.len());
                if run.overran {
                    &&& r == Err::<Vec<Vec<u8>>, FrameError>(FrameError::LineTooLong)
                    &&& final(self).pending() == Seq::<u8>::empty()
                } else {
                    &&& r is Ok
                    &&& lines_view(r->Ok_0@) == run.emitted
                    &&& final(self).pending() == run.pending
                }
            }),
            r matches Ok(lines) ==> forall|i: int| 0 <= i < lines@.len() ==> {
                &&& is_accepted(#[trigger] lines@[i]@)
                &&& lines@[i]@.len() <= LINE_CAPACITY
                &&& no_terminator(lines@[i]@)
            },
    {
        proof {
            framed_lines_are_accepted(old(self).pending(), chunk@, chunk@.len());
        }
        let mut lines: Vec<Vec<u8>> = Vec::new();
        let mut i: usize = 0;
        while i < chunk.len()
            invariant
                i <= chunk@.len(),
                self.line@.len() <= LINE_CAPACITY,
                ({
                    let run = frame_run(old(self).pending(), chunk@, i as nat);
                    &&& !run.overran
                    &&& lines_view(lines@) == run.emitted
                    &&& self.line@ == run.pending
                }),
            decreases chunk@.len() - i,
        {
            let byte: u8 = chunk[i];
            let ghost prev_lines = lines@;
            let ghost prev_line = self.line@;
            proof {
                assert(frame_run(old(self).pending(), chunk@, (i + 1) as nat) == frame_step(
                    frame_run(old(self).pending(), chunk@, i as nat),
                    chunk@[i as int],
                ));
            }
            if byte == 10u8 || byte == 13u8 {
                if self.line.len() > 0 && self.line[0] == 123u8 {
                    let mut taken: Vec<u8> = Vec::new();
                    std::mem::swap(&mut taken, &mut self.line);
                    let ghost taken_view = taken;
                    lines.push(taken);
                    proof {
                        assert(lines@ == prev_lines.push(taken_view));
                        assert(lines_view(lines@) =~= lines_view(prev_lines).push(prev_line));
                    }
                } else {
                    self.line.clear();
                }
            } else if self.line.len() >= LINE_CAPACITY {
                self.line.clear();
                proof {
                    lemma_overran_stays(old(self).pending(), chunk@, (i + 1) as nat, chunk@.len());
                }
                return Err(FrameError::LineTooLong);
            } else {
                self.line.push(byte);
            }
            i = i + 1;
        }
        proof {
            assert forall|k: int| 0 <= k < lines@.len() implies {
                &&& is_accepted(#[trigger] lines@[k]@)
                &&& lines@[k]@.len() <= LINE_CAPACITY
                &&& no_terminator(lines@[k]@)
            } by {
                assert(lines_view(lines@)[k] == lines@[k]@);
            }
        }
        Ok(lines)
    }
}

/// Once a run has overrun, it stays overrun with an empty pending line.
pub proof fn lemma_overran_stays(pending: Seq<u8>, chunk: Seq<u8>, m: nat, n: nat)
    requires
        m <= n,
        frame_run(pending, chunk, m).overran,
        frame_run(pending, chunk, m).pending == Seq::<u8>::empty(),
    ensures
        frame_run(pending, chunk, n).overran,
        frame_run(pending, chunk, n).pending == Seq::<u8>::empty(),
    decreases n - m,
{
    if m < n {
        lemma_overran_stays(pending, chunk, m, (n - 1) as nat);
    }
}

/// Whether `line` holds no terminator byte.
pub open spec fn no_terminator(line: Seq<u8>) -> bool {
    forall|i: int| 0 <= i < line.len() ==> !is_terminator(#[trigger] line[i])
}

/// A run only reads the bytes it has framed.
proof fn lemma_run_prefix(pending: Seq<u8>, c1: Seq<u8>, c2: Seq<u8>, n: nat)
    requires
        n <= c1.len(),
        n <= c2.len(),
        forall|i: int| 0 <= i < n ==> c1[i] == c2[i],
    ensures
        frame_run(pending, c1, n) == frame_run(pending, c2, n),
    decreases n,
{
    if n > 0 {
        lemma_run_prefix(pending, c1, c2, (n - 1) as nat);
    }
}

/// Every line a run emits is accepted (non-empty, starting with `{`), holds no terminator,
/// and fits the line buffer — given a pending line that does.
pub proof fn framed_lines_are_accepted(pending: Seq<u8>, chunk: Seq<u8>, n: nat)
    requires
        pending.len() <= LINE_CAPACITY,
        no_terminator(pending),
        n <= chunk.len(),
    ensures
        frame_run(pending, chunk, n).pending.len() <= LINE_CAPACITY,
        no_terminator(frame_run(pending, chunk, n).pending),
        forall|i: int|
            0 <= i < frame_run(pending, chunk, n).emitted.len() ==> is_accepted(
                #[trigger] frame_run(pending, chunk, n).emitted[i],
            ) && frame_run(pending, chunk, n).emitted[i].len() <= LINE_CAPACITY && no_terminator(
                frame_run(pending, chunk, n).emitted[i],
            ),
    decreases n,
{
    if n > 0 {
        framed_lines_are_accepted(pending, chunk, (n - 1) as nat);
        let prev = frame_run(pending, chunk, (n - 1) as nat);
        let b = chunk[n - 1];
        if !prev.overran && !is_terminator(b) && prev.pending.len() < LINE_CAPACITY {
            assert forall|i: int| 0 <= i < prev.pending.push(b).len() implies !is_terminator(
                #[trigger] prev.pending.push(b)[i],
            ) by {
                if i < prev.pending.len() {
                    assert(prev.pending.push(b)[i] == prev.pending[i]);
                }
            }
        }
    }
}

/// A line that begins with `{`, holds no terminator and fits the line buffer comes out of a
/// fresh framer intact, as the one line, once it is terminated.
pub proof fn terminated_line_round_trips(line: Seq<u8>, terminator: u8)
    requires
        is_accepted(line),
        no_terminator(line),
        line.len() <= LINE_CAPACITY,
        is_terminator(terminator),
    ensures
        frame_run(Seq::empty(), line.push(terminator), line.len() + 1) == (FrameRun {
            pending: Seq::empty(),
            emitted: seq![line],
            overran: false,
        }),
{
    let chunk = line.push(terminator);
    lemma_line_prefix(line, terminator, line.len());
    assert(line.take(line.len() as int) == line);
    assert(chunk[line.len() as int] == terminator);
    assert(frame_run(Seq::empty(), chunk, line.len() + 1) == frame_step(
        frame_run(Seq::empty(), chunk, line.len()),
        chunk[line.len() as int],
    ));
    assert(Seq::<Seq<u8>>::empty().push(line) == seq![line]);
}

/// Framing a prefix of a line accumulates exactly that prefix.
proof fn lemma_line_prefix(line: Seq<u8>, terminator: u8, k: nat)
    requires
        no_terminator(line),
        line.len() <= LINE_CAPACITY,
        k <= line.len(),
    ensures
        frame_run(Seq::empty(), line.push(terminator), k) == (FrameRun {
            pending: line.take(k as int),
            emitted: Seq::empty(),
            overran: false,
        }),
    decreases k,
{
    if k > 0 {
        lemma_line_prefix(line, terminator, (k - 1) as nat);
        assert(line.push(terminator)[k - 1] == line[k - 1]);
        assert(line.take(k - 1).push(line[k - 1]) == line.take(k as int));
    } else {
        assert(line.take(0) == Seq::<u8>::empty());
    }
}

/// One run followed by another, from where the first left off.
pub open spec fn then_run(first: FrameRun, second: FrameRun) -> FrameRun {
    FrameRun { pending: second.pending, emitted: first.emitted + second.emitted, overran: second.overran }
}

/// Framing `a` and then `b` from where `a` left off emits the same lines, and leaves the same
/// pending line, as framing `a + b` at once — provided `a` did not overrun. A line split
/// across chunks reassembles.
pub proof fn split_chunks_frame_alike(pending: Seq<u8>, a: Seq<u8>, b: Seq<u8>)
    requires
        !frame_run(pending, a, a.len()).overran,
    ensures
        frame_run(pending, a + b, a.len() + b.len()) == then_run(
            frame_run(pending, a, a.len()),
            frame_run(frame_run(pending, a, a.len()).pending, b, b.len()),
        ),
{
    lemma_split_prefix(pending, a, b, b.len());
}

/// The split law on a prefix of `b`.
proof fn lemma_split_prefix(pending: Seq<u8>, a: Seq<u8>, b: Seq<u8>, k: nat)
    requires
        !frame_run(pending, a, a.len()).overran,
        k <= b.len(),
    ensures
        frame_run(pending, a + b, a.len() + k) == then_run(
            frame_run(pending, a, a.len()),
            frame_run(frame_run(pending, a, a.len()).pending, b, k),
        ),
    decreases k,
{
    let ra = frame_run(pending, a, a.len());
    if k == 0 {
        lemma_run_prefix(pending, a + b, a, a.len());
        assert(ra.emitted + Seq::<Seq<u8>>::empty() == ra.emitted);
    } else {
        lemma_split_prefix(pending, a, b, (k - 1) as nat);
        let prev = frame_run(ra.pending, b, (k - 1) as nat);
        assert((a + b)[a.len() + k - 1] == b[k - 1]);
        let x = b[k - 1];
        if !prev.overran && is_terminator(x) && is_accepted(prev.pending) {
            assert((ra.emitted + prev.emitted).push(prev.pending) == ra.emitted + prev.emitted.push(prev.pending));
        }
    }
}

/// A bounded byte ring modelling the BLE receive buffer, in front of the [`Framer`].
#[derive(Debug, Default)]
pub struct Ring {
    buf: VecDeque<u8>,
}

impl Ring {
    /// The bytes held, oldest first.
    pub closed spec fn contents(&self) -> Seq<u8> {
        self.buf@
    }

    /// The ring's invariant: it never holds more than the capacity.
    pub closed spec fn wf(&self) -> bool {
        self.buf@.len() <= RING_CAPACITY
    }

    /// A fresh, empty ring.
    pub fn new() -> (r: Self)
        ensures
            r.wf(),
            r.contents() == Seq::<u8>::empty(),
    {
        Ring { buf: VecDeque::new() }
    }

    /// Push bytes into the ring, all or nothing: [`FrameError::RxOverflow`] (and nothing
    /// appended) when they do not fit.
    pub fn push(&mut self, bytes: &[u8]) -> (r: Result<(), FrameError>)
        requires
            old(self).wf(),
        ensures
            final(self).wf(),
            old(self).contents().len() + bytes@.len() <= RING_CAPACITY ==> (r is Ok
                && final(self).contents() == old(self).contents() + bytes@),
            old(self).contents().len() + bytes@.len() > RING_CAPACITY ==> (r
                == Err::<(), FrameError>(FrameError::RxOverflow) && final(self).contents()
                == old(self).contents()),
    {
        if bytes.len() > RING_CAPACITY - self.buf.len() {
            return Err(FrameError::RxOverflow);
        }
        let mut i: usize = 0;
        while i < bytes.len()
            invariant
                i <= bytes@.len(),
                old(self).contents().len() + bytes@.len() <= RING_CAPACITY,
                self.buf@ == old(self).contents() + bytes@.take(i as int),
            decreases bytes@.len() - i,
        {
            self.buf.push_back(bytes[i]);
            proof {
                assert(bytes@.take(i + 1) == bytes@.take(i as int).push(bytes@[i as int]));
            }
            i = i + 1;
        }
        proof {
            assert(bytes@.take(bytes@.len() as int) == bytes@);
        }
        Ok(())
    }

    /// Drain all buffered bytes, oldest first, leaving the ring empty.
    pub fn drain(&mut self) -> (r: Vec<u8>)
        requires
            old(self).wf(),
        ensures
            final(self).wf(),
            r@ == old(self).contents(),
            final(self).contents() == Seq::<u8>::empty(),
    {
        let mut out: Vec<u8> = Vec::new();
        while self.buf.len() > 0
            invariant
                out@ + self.buf@ == old(self).contents(),
            decreases self.buf@.len(),
        {
            let ghost before = self.buf@;
            let b: Option<u8> = self.buf.pop_front();
            match b {
                Some(byte) => {
                    out.push(byte);
                    proof {
                        assert(out@ + self.buf@ == old(self).contents()) by {
                            assert(before == seq![byte] + self.buf@);
                        }
                    }
                },
                None => {},
            }
        }
        proof {
            assert(out@ + self.buf@ == out@);
        }
        out
    }
}

} // verus!
