//! The receive path: raw GATT bytes in, folded state out.
//!
//! A BLE write arrives fragmented at the MTU boundary with no framing of its own, so bytes
//! accumulate in a [`Framer`] until a terminator, and each complete line is classified by
//! [`parse_inbound`]. Every failure — a line that overran the buffer, a line that is not JSON, a
//! time sync of the wrong arity — is dropped, never guessed at: in particular none of them is
//! ever treated as a snapshot, which is how a keepalive would wipe a prompt.
use vstd::prelude::*;
use crate::json::json_parse;
use crate::wire::framing::{Framer, frame_run, lines_view};
use crate::shell::identity::Identity;
use crate::shell::state::DeviceState;
use crate::wire::command::CommandModel;
use crate::shell::wall::Tick;
use crate::wire::inbound::{Inbound, InboundModel, InboundParse, StateModel, inbound_of, merged, parse_inbound};

verus! {

/// What a framed line classifies as, when it classifies at all.
pub open spec fn classify(line: Seq<u8>) -> Option<InboundModel> {
    match json_parse(line) {
        None => None,
        Some(t) => match inbound_of(t) {
            InboundParse::Parsed(m) => Some(m),
            _ => None,
        },
    }
}

/// The receive path for one link.
pub struct Receiver {
    framer: Framer,
}

impl Receiver {
    /// The pending (unterminated) bytes.
    pub closed spec fn pending(&self) -> Seq<u8> {
        self.framer.pending()
    }

    /// The receiver's invariant.
    pub closed spec fn wf(&self) -> bool {
        self.framer.wf()
    }

    /// A receiver with nothing pending.
    pub fn new() -> (r: Self)
        ensures
            r.wf(),
            r.pending() == Seq::<u8>::empty(),
    {
        Receiver { framer: Framer::new() }
    }

    /// Feed one chunk of raw bytes at `now`, folding every complete line it completes into
    /// `state`, in order, and answering how many lines reached the state, with the desktop
    /// token totals the snapshots among them carried, in order, for the creature's stats latch
    /// to credit. A line that overran the buffer drops the chunk; a line that does not classify
    /// is dropped, never guessed at — and so is a time sync whose offset would carry the clock
    /// past what an `i64` holds.
    pub fn feed(&mut self, chunk: &[u8], now: Tick, state: &mut DeviceState) -> (r: (usize, Vec<u32>))
        requires
            old(self).wf(),
        ensures
            final(self).wf(),
            ({
                let msgs = received(old(self).pending(), chunk@);
                &&& r.0 == usable_count(msgs)
                &&& r.1@ == token_totals(msgs)
                &&& final(state).snapshot() == fold_snapshots(old(state).snapshot(), msgs)
                &&& no_snapshot(msgs) ==> final(state).prompt_state() == old(state).prompt_state()
                &&& identity_of(final(state).identity()) == fold_identity(identity_of(old(state).identity()), msgs)
                &&& final(state).species() == fold_species(old(state).species(), msgs)
                &&& final(state).wall() == fold_wall(old(state).wall(), msgs, now)
                &&& r.0 == 0 ==> final(state).last_inbound() == old(state).last_inbound()
                &&& r.0 > 0 ==> final(state).last_inbound() == Some(now)
            }),
    {
        let lines: Vec<Vec<u8>> = match self.framer.push(chunk) {
            Ok(lines) => lines,
            Err(_) => {
                proof {
                    assert(received(old(self).pending(), chunk@) =~= Seq::<InboundModel>::empty());
                }
                return (0, Vec::new());
            },
        };
        let ghost emitted = lines_view(lines@);
        let ghost s0 = state.snapshot();
        let ghost p0 = state.prompt_state();
        let ghost l0 = state.last_inbound();
        let ghost id0 = identity_of(state.identity());
        let ghost sp0 = state.species();
        let ghost w0 = state.wall();
        let mut totals: Vec<u32> = Vec::new();
        let mut count: usize = 0;
        let mut i: usize = 0;
        while i < lines.len()
            invariant
                i <= lines@.len(),
                emitted == lines_view(lines@),
                ({
                    let got = emitted.take(i as int).filter_map(|l: Seq<u8>| classify(l));
                    &&& count == usable_count(got)
                    &&& count <= i
                    &&& state.snapshot() == fold_snapshots(s0, got)
                    &&& no_snapshot(got) ==> state.prompt_state() == p0
                    &&& count == 0 ==> state.last_inbound() == l0
                    &&& count > 0 ==> state.last_inbound() == Some(now)
                    &&& totals@ == token_totals(got)
                    &&& identity_of(state.identity()) == fold_identity(id0, got)
                    &&& state.species() == fold_species(sp0, got)
                    &&& state.wall() == fold_wall(w0, got, now)
                }),
            decreases lines@.len() - i,
        {
            let ghost before = emitted.take(i as int).filter_map(|l: Seq<u8>| classify(l));
            proof {
                assert(emitted.take(i + 1).drop_last() =~= emitted.take(i as int));
                assert(emitted.take(i + 1).last() == lines@[i as int]@);
            }
            match parse_inbound(lines[i].as_slice()) {
                Ok(inbound) => {
                    let ghost m = inbound@;
                    let ghost after = before.push(m);
                    proof {
                        assert(emitted.take(i + 1).filter_map(|l: Seq<u8>| classify(l)) =~= after);
                        assert(after.drop_last() =~= before);
                    }
                    if time_fits(&inbound) {
                        let total: Option<u32> = state.apply(inbound, now);
                        if let Some(t) = total {
                            totals.push(t);
                        }
                        count = count + 1;
                    }
                },
                Err(_) => {
                    proof {
                        assert(emitted.take(i + 1).filter_map(|l: Seq<u8>| classify(l)) =~= before);
                    }
                },
            }
            i = i + 1;
        }
        proof {
            assert(emitted.take(lines@.len() as int) =~= emitted);
        }
        (count, totals)
    }
}

/// The messages a chunk brings, in order: those of the lines it completes that classify; none
/// when a line overran the buffer.
pub open spec fn received(pending: Seq<u8>, chunk: Seq<u8>) -> Seq<InboundModel> {
    let run = frame_run(pending, chunk, chunk.len());
    if run.overran {
        Seq::empty()
    } else {
        run.emitted.filter_map(|l: Seq<u8>| classify(l))
    }
}

/// Whether a message can be applied: anything but a time sync whose offset would carry the
/// clock past an `i64`.
pub open spec fn usable(m: InboundModel) -> bool {
    m matches InboundModel::Time { epoch, tz_offset_s } ==> i64::MIN <= epoch + tz_offset_s
        <= i64::MAX
}

/// How many of `msgs` can be applied.
pub open spec fn usable_count(msgs: Seq<InboundModel>) -> nat
    decreases msgs.len(),
{
    if msgs.len() == 0 {
        0
    } else {
        usable_count(msgs.drop_last()) + if usable(msgs.last()) {
            1nat
        } else {
            0nat
        }
    }
}

/// The snapshot state after merging every snapshot among `msgs`, in order.
pub open spec fn fold_snapshots(s: StateModel, msgs: Seq<InboundModel>) -> StateModel
    decreases msgs.len(),
{
    if msgs.len() == 0 {
        s
    } else {
        let prior = fold_snapshots(s, msgs.drop_last());
        match msgs.last() {
            InboundModel::Snapshot(p) => merged(prior, p),
            _ => prior,
        }
    }
}

/// Whether none of `msgs` is a snapshot.
pub open spec fn no_snapshot(msgs: Seq<InboundModel>) -> bool {
    forall|k: int| 0 <= k < msgs.len() ==> !(#[trigger] msgs[k] is Snapshot)
}

/// The desktop token totals the snapshots among `msgs` carried, in order.
pub open spec fn token_totals(msgs: Seq<InboundModel>) -> Seq<u32>
    decreases msgs.len(),
{
    if msgs.len() == 0 {
        Seq::empty()
    } else {
        let prior = token_totals(msgs.drop_last());
        match msgs.last() {
            InboundModel::Snapshot(p) => match p.tokens {
                Some(t) => prior.push(t),
                None => prior,
            },
            _ => prior,
        }
    }
}

/// An identity as its name, firmware, address and owner.
pub open spec fn identity_of(i: Identity) -> (Seq<char>, Seq<char>, Seq<char>, Seq<char>) {
    (i.name@, i.firmware@, i.address@, i.owner@)
}

/// The identity after the name and owner commands among `msgs`, in order.
pub open spec fn fold_identity(
    i: (Seq<char>, Seq<char>, Seq<char>, Seq<char>),
    msgs: Seq<InboundModel>,
) -> (Seq<char>, Seq<char>, Seq<char>, Seq<char>)
    decreases msgs.len(),
{
    if msgs.len() == 0 {
        i
    } else {
        let prior = fold_identity(i, msgs.drop_last());
        match msgs.last() {
            InboundModel::Command(CommandModel::Name(n)) => (n, prior.1, prior.2, prior.3),
            InboundModel::Command(CommandModel::Owner(o)) => (prior.0, prior.1, prior.2, o),
            _ => prior,
        }
    }
}

/// The species after the species commands among `msgs`, in order.
pub open spec fn fold_species(s: u8, msgs: Seq<InboundModel>) -> u8
    decreases msgs.len(),
{
    if msgs.len() == 0 {
        s
    } else {
        let prior = fold_species(s, msgs.drop_last());
        match msgs.last() {
            InboundModel::Command(CommandModel::Species(index)) => index,
            _ => prior,
        }
    }
}

/// The wall clock after the usable time syncs among `msgs`, each landing at `now`.
pub open spec fn fold_wall(w: Option<(i64, u64)>, msgs: Seq<InboundModel>, now: Tick) -> Option<(i64, u64)>
    decreases msgs.len(),
{
    if msgs.len() == 0 {
        w
    } else {
        let prior = fold_wall(w, msgs.drop_last(), now);
        match msgs.last() {
            InboundModel::Time { epoch, tz_offset_s } => if usable(msgs.last()) {
                Some(((epoch + tz_offset_s) as i64, now))
            } else {
                prior
            },
            _ => prior,
        }
    }
}

/// Whether `inbound` can be applied (see [`usable`]).
fn time_fits(inbound: &Inbound) -> (r: bool)
    ensures
        r == usable(inbound@),
{
    match inbound {
        Inbound::Time { epoch, tz_offset_s } => epoch.checked_add(*tz_offset_s as i64).is_some(),
        _ => true,
    }
}

} // verus!
