//! Session → snapshot synthesis — pure, and touching no clock.
//!
//! The heartbeat is reconstructed from the stream of already-typed session events the hook
//! forwards. The ledger folds those events, keyed by session id, into the snapshot fields the
//! device expects:
//!
//! - `total` — distinct sessions seen;
//! - `running` — sessions started and not stopped;
//! - `waiting` — sessions with an outstanding prompt;
//! - `completed` — a completion happened since the last synthesis (a per-emission pulse);
//! - `tokens` — a monotonic running total, credited from observed desktop totals so a daemon
//!   restart or a restarted transcript never double-counts;
//! - `tokens_today`, `msg`, `entries` — no signal here, so absent (keep prior on the device).
//!
//! The live approval is derived, never stored: it is the most recently raised prompt among the
//! sessions that still pend, so `waiting > 0` holds exactly when a prompt rides the packet, and a
//! resolve on one session can never clear the glass while another still waits.
use vstd::prelude::*;
use crate::text::str_eq;
use crate::wire::inbound::{PacketModel, Prompt, PromptModel, SnapshotPacket};

verus! {

/// A coding-agent session identity, taken verbatim from the hook payload's `session_id`.
#[derive(Clone, PartialEq, Eq, Hash, Debug)]
pub struct SessionId(pub String);

/// One already-typed session lifecycle event.
#[derive(Clone, PartialEq, Eq, Debug)]
pub enum SessionEvent {
    /// `SessionStart` — the session exists and is running.
    Started,
    /// A tool call began (no approval needed).
    ToolStarted,
    /// A tool call is waiting on the owner's decision — raises the outstanding prompt.
    AwaitingApproval(Prompt),
    /// The owner's decision arrived — the deliberate prompt-clear.
    Resolved,
    /// A tool call or turn completed — pulses `completed` for the next synthesis.
    Completed,
    /// `Stop` — the session is no longer running.
    Stopped,
}

/// The model of a [`SessionEvent`].
pub enum EventModel {
    Started,
    ToolStarted,
    AwaitingApproval(PromptModel),
    Resolved,
    Completed,
    Stopped,
}

impl View for SessionEvent {
    type V = EventModel;

    open spec fn view(&self) -> EventModel {
        match self {
            SessionEvent::Started => EventModel::Started,
            SessionEvent::ToolStarted => EventModel::ToolStarted,
            SessionEvent::AwaitingApproval(p) => EventModel::AwaitingApproval(p@),
            SessionEvent::Resolved => EventModel::Resolved,
            SessionEvent::Completed => EventModel::Completed,
            SessionEvent::Stopped => EventModel::Stopped,
        }
    }
}

/// A pending prompt tagged with the raise order that stamped it; higher is newer.
struct Pending {
    seq: u64,
    prompt: Prompt,
}

/// One session's folded lifecycle.
struct SessionState {
    started: bool,
    stopped: bool,
    pending: Option<Pending>,
}

/// The model of one session: whether it started, whether it stopped, and its pending prompt
/// with the raise order that stamped it.
pub struct SessionModel {
    pub started: bool,
    pub stopped: bool,
    pub pending: Option<(u64, PromptModel)>,
}

/// The model of a [`Ledger`]: the sessions in order of first appearance, the raise counter,
/// the `completed` pulse, the last observed desktop total and the credited total.
pub struct LedgerModel {
    pub sessions: Seq<(Seq<char>, SessionModel)>,
    pub raise_seq: u64,
    pub completed: bool,
    pub last_total: Option<u32>,
    pub credited: u32,
}

/// The session → snapshot fold: the accumulated session state plus the token latch.
pub struct Ledger {
    sessions: Vec<(SessionId, SessionState)>,
    raise_seq: u64,
    completed_pulse: bool,
    last_total: Option<u32>,
    credited_total: u32,
}

/// The model of a pending prompt.
spec fn pending_model(p: Option<Pending>) -> Option<(u64, PromptModel)> {
    match p {
        Some(x) => Some((x.seq, x.prompt@)),
        None => None,
    }
}

/// The model of a session.
spec fn session_model(s: SessionState) -> SessionModel {
    SessionModel { started: s.started, stopped: s.stopped, pending: pending_model(s.pending) }
}

impl View for Ledger {
    type V = LedgerModel;

    closed spec fn view(&self) -> LedgerModel {
        LedgerModel {
            sessions: self.sessions@.map_values(
                |e: (SessionId, SessionState)| (e.0.0@, session_model(e.1)),
            ),
            raise_seq: self.raise_seq,
            completed: self.completed_pulse,
            last_total: self.last_total,
            credited: self.credited_total,
        }
    }
}

/// A session seen for the first time.
pub open spec fn fresh_session() -> SessionModel {
    SessionModel { started: false, stopped: false, pending: None }
}

/// Whether `id` has a session.
pub open spec fn has_session(s: Seq<(Seq<char>, SessionModel)>, id: Seq<char>) -> bool {
    exists|i: int| 0 <= i < s.len() && s[i].0 == id
}

/// Apply `f` to the session `id`, adding it (fresh) at the end when it is new.
pub open spec fn touch(
    s: Seq<(Seq<char>, SessionModel)>,
    id: Seq<char>,
    f: spec_fn(SessionModel) -> SessionModel,
) -> Seq<(Seq<char>, SessionModel)> {
    if has_session(s, id) {
        let i = choose|i: int| 0 <= i < s.len() && s[i].0 == id;
        s.update(i, (id, f(s[i].1)))
    } else {
        s.push((id, f(fresh_session())))
    }
}

/// The ledger after one event for session `id`.
pub open spec fn record_model(m: LedgerModel, id: Seq<char>, event: EventModel) -> LedgerModel {
    match event {
        EventModel::Completed => LedgerModel { completed: true, ..m },
        EventModel::AwaitingApproval(p) => LedgerModel {
            sessions: touch(
                m.sessions,
                id,
                |st: SessionModel| SessionModel { pending: Some(((m.raise_seq + 1) as u64, p)), ..st },
            ),
            raise_seq: (m.raise_seq + 1) as u64,
            ..m
        },
        EventModel::Started => LedgerModel {
            sessions: touch(m.sessions, id, |st: SessionModel| SessionModel { started: true, ..st }),
            ..m
        },
        EventModel::ToolStarted => LedgerModel {
            sessions: touch(m.sessions, id, |st: SessionModel| st),
            ..m
        },
        EventModel::Resolved => LedgerModel {
            sessions: touch(m.sessions, id, |st: SessionModel| SessionModel { pending: None, ..st }),
            ..m
        },
        EventModel::Stopped => LedgerModel {
            sessions: touch(m.sessions, id, |st: SessionModel| SessionModel { stopped: true, ..st }),
            ..m
        },
    }
}

/// The ledger's invariant: session ids are distinct, and every pending prompt was stamped
/// with a distinct raise order no later than the counter.
pub open spec fn ledger_wf(m: LedgerModel) -> bool {
    &&& forall|i: int, j: int| 0 <= i < j < m.sessions.len() ==> m.sessions[i].0 != m.sessions[j].0
    &&& forall|i: int|
        0 <= i < m.sessions.len() ==> (#[trigger] m.sessions[i].1.pending matches Some(x) ==> x.0
            <= m.raise_seq)
    &&& forall|i: int, j: int|
        0 <= i < j < m.sessions.len() && m.sessions[i].1.pending is Some
            && m.sessions[j].1.pending is Some ==> m.sessions[i].1.pending->Some_0.0
            != m.sessions[j].1.pending->Some_0.0
}

/// Whether a session is running: started and not yet stopped.
pub open spec fn is_running(s: SessionModel) -> bool {
    s.started && !s.stopped
}

/// Whether a session is waiting: it has a pending prompt.
pub open spec fn is_waiting(s: SessionModel) -> bool {
    s.pending is Some
}

/// How many sessions are running.
pub open spec fn running_count(s: Seq<(Seq<char>, SessionModel)>) -> nat
    decreases s.len(),
{
    if s.len() == 0 {
        0
    } else {
        running_count(s.drop_last()) + if is_running(s.last().1) {
            1nat
        } else {
            0nat
        }
    }
}

/// How many sessions are waiting.
pub open spec fn waiting_count(s: Seq<(Seq<char>, SessionModel)>) -> nat
    decreases s.len(),
{
    if s.len() == 0 {
        0
    } else {
        waiting_count(s.drop_last()) + if is_waiting(s.last().1) {
            1nat
        } else {
            0nat
        }
    }
}

/// The newest of two optional pending prompts (the later one on a tie).
pub open spec fn newer(a: Option<(u64, PromptModel)>, b: Option<(u64, PromptModel)>) -> Option<(u64, PromptModel)> {
    match (a, b) {
        (None, _) => b,
        (Some(x), None) => Some(x),
        (Some(x), Some(y)) => if y.0 >= x.0 {
            Some(y)
        } else {
            Some(x)
        },
    }
}

/// The most recently raised pending prompt among the sessions.
pub open spec fn outstanding(s: Seq<(Seq<char>, SessionModel)>) -> Option<(u64, PromptModel)>
    decreases s.len(),
{
    if s.len() == 0 {
        None
    } else {
        newer(outstanding(s.drop_last()), s.last().1.pending)
    }
}

/// The prompt of the outstanding pending prompt.
pub open spec fn outstanding_model(s: Seq<(Seq<char>, SessionModel)>) -> Option<PromptModel> {
    match outstanding(s) {
        Some(x) => Some(x.1),
        None => None,
    }
}

/// A count capped into a `u8`, saturating at 255.
pub open spec fn capped(n: nat) -> u8 {
    if n > 255 {
        255
    } else {
        n as u8
    }
}

/// The packet a synthesis emits: the counts (always present), the `completed` pulse only when
/// set, the credited total, and the outstanding prompt whenever one is live.
pub open spec fn synth_model(m: LedgerModel) -> PacketModel {
    PacketModel {
        total: Some(capped(m.sessions.len())),
        running: Some(capped(running_count(m.sessions))),
        waiting: Some(capped(waiting_count(m.sessions))),
        completed: if m.completed {
            Some(true)
        } else {
            None
        },
        tokens: Some(m.credited),
        tokens_today: None,
        msg: None,
        entries: None,
        prompt: outstanding_model(m.sessions),
    }
}

/// What one observation of a cumulative desktop total credits: nothing on the first
/// observation (the boot baseline) and nothing on a backwards total (a re-baseline), else the
/// forward delta.
pub open spec fn latch_credit(last: Option<u32>, observed: u32) -> u32 {
    match last {
        None => 0,
        Some(prev) => if observed >= prev {
            (observed - prev) as u32
        } else {
            0
        },
    }
}

/// The ledger after observing a cumulative desktop total.
pub open spec fn observe_model(m: LedgerModel, observed: u32) -> LedgerModel {
    LedgerModel {
        last_total: Some(observed),
        credited: if m.credited + latch_credit(m.last_total, observed) > u32::MAX {
            u32::MAX
        } else {
            (m.credited + latch_credit(m.last_total, observed)) as u32
        },
        ..m
    }
}

/// Cap a session count into a `u8`, saturating at 255 rather than wrapping.
pub fn cap_u8(count: usize) -> (r: u8)
    ensures
        r == capped(count as nat),
{
    if count > 255 {
        255
    } else {
        count as u8
    }
}

impl Ledger {
    /// The ledger's invariant, over its model.
    pub open spec fn wf(&self) -> bool {
        ledger_wf(self@)
    }

    /// A fresh ledger: no sessions, no outstanding prompt, no observed total.
    pub fn new() -> (r: Self)
        ensures
            r.wf(),
            r@ == (LedgerModel {
                sessions: Seq::empty(),
                raise_seq: 0,
                completed: false,
                last_total: None,
                credited: 0,
            }),
    {
        let r = Ledger {
            sessions: Vec::new(),
            raise_seq: 0,
            completed_pulse: false,
            last_total: None,
            credited_total: 0,
        };
        proof {
            assert(r@.sessions =~= Seq::<(Seq<char>, SessionModel)>::empty());
        }
        r
    }
}


/// With distinct ids, the session `id` sits at exactly one index, and `touch` updates it there.
proof fn lemma_touch_at(
    s: Seq<(Seq<char>, SessionModel)>,
    id: Seq<char>,
    i: int,
    f: spec_fn(SessionModel) -> SessionModel,
)
    requires
        forall|a: int, b: int| 0 <= a < b < s.len() ==> s[a].0 != s[b].0,
        0 <= i < s.len(),
        s[i].0 == id,
    ensures
        has_session(s, id),
        touch(s, id, f) == s.update(i, (id, f(s[i].1))),
{
    let j = choose|j: int| 0 <= j < s.len() && s[j].0 == id;
    if j != i {
        if j < i {
            assert(s[j].0 != s[i].0);
        } else {
            assert(s[i].0 != s[j].0);
        }
    }
}

/// One step of a count over a prefix.
proof fn lemma_take_step(s: Seq<(Seq<char>, SessionModel)>, k: int)
    requires
        0 <= k < s.len(),
    ensures
        s.take(k + 1).drop_last() == s.take(k),
        s.take(k + 1).last() == s[k],
        running_count(s.take(k + 1)) == running_count(s.take(k)) + if is_running(s[k].1) {
            1nat
        } else {
            0nat
        },
        waiting_count(s.take(k + 1)) == waiting_count(s.take(k)) + if is_waiting(s[k].1) {
            1nat
        } else {
            0nat
        },
        outstanding(s.take(k + 1)) == newer(outstanding(s.take(k)), s[k].1.pending),
{
    assert(s.take(k + 1).drop_last() =~= s.take(k));
}

impl Ledger {
    /// The model of the session at `i`.
    proof fn lemma_session_at(&self, i: int)
        requires
            0 <= i < self.sessions@.len(),
        ensures
            self@.sessions.len() == self.sessions@.len(),
            self@.sessions[i] == (self.sessions@[i].0.0@, session_model(self.sessions@[i].1)),
    {
    }

    /// The index of session `id`, if it has one.
    fn find(&self, id: &str) -> (r: Option<usize>)
        ensures
            self@.sessions.len() == self.sessions@.len(),
            r matches Some(i) ==> i < self.sessions@.len() && self@.sessions[i as int].0 == id@,
            r is None ==> !has_session(self@.sessions, id@),
    {
        let mut i: usize = 0;
        while i < self.sessions.len()
            invariant
                i <= self.sessions@.len(),
                self@.sessions.len() == self.sessions@.len(),
                forall|k: int| 0 <= k < i ==> self@.sessions[k].0 != id@,
            decreases self.sessions@.len() - i,
        {
            proof {
                self.lemma_session_at(i as int);
            }
            if str_eq(self.sessions[i].0.0.as_str(), id) {
                return Some(i);
            }
            i = i + 1;
        }
        None
    }

    /// The index of session `id`, adding it fresh at the end when it is new.
    fn slot(&mut self, id: SessionId) -> (r: usize)
        requires
            old(self).wf(),
        ensures
            r < final(self).sessions@.len(),
            final(self)@.sessions[r as int].0 == id.0@,
            final(self)@.raise_seq == old(self)@.raise_seq,
            final(self)@.completed == old(self)@.completed,
            final(self)@.last_total == old(self)@.last_total,
            final(self)@.credited == old(self)@.credited,
            has_session(old(self)@.sessions, id.0@) ==> final(self)@.sessions == old(self)@.sessions,
            !has_session(old(self)@.sessions, id.0@) ==> final(self)@.sessions == old(self)@.sessions.push(
                (id.0@, fresh_session()),
            ),
    {
        match self.find(id.0.as_str()) {
            Some(i) => i,
            None => {
                self.sessions.push((id, SessionState { started: false, stopped: false, pending: None }));
                proof {
                    assert(self@.sessions =~= old(self)@.sessions.push((id.0@, fresh_session())));
                }
                self.sessions.len() - 1
            },
        }
    }

    /// Fold one typed session event for `session` into the accumulated state.
    ///
    /// A `Resolved` clears only the resolving session's pending prompt; a `Completed` touches
    /// no session.
    pub fn record(&mut self, session: SessionId, event: SessionEvent)
        requires
            old(self).wf(),
            event is AwaitingApproval ==> old(self)@.raise_seq < u64::MAX,
        ensures
            final(self).wf(),
            final(self)@ == record_model(old(self)@, session.0@, event@),
    {
        let ghost id = session.0@;
        let ghost ev = event@;
        match event {
            SessionEvent::Completed => {
                self.completed_pulse = true;
                proof {
                    assert(self@.sessions =~= old(self)@.sessions);
                }
            },
            other => {
                let i: usize = self.slot(session);
                let ghost mid = self@;
                let ghost was_present = has_session(old(self)@.sessions, id);
                proof {
                    assert forall|a: int, b: int| 0 <= a < b < mid.sessions.len() implies mid.sessions[a].0
                        != mid.sessions[b].0 by {
                        if !was_present && b == mid.sessions.len() - 1 {
                            assert(mid.sessions[a] == old(self)@.sessions[a]);
                        }
                    }
                }
                match other {
                    SessionEvent::AwaitingApproval(prompt) => {
                        self.raise_seq = self.raise_seq + 1;
                        let seq: u64 = self.raise_seq;
                        self.sessions[i].1.pending = Some(Pending { seq, prompt });
                    },
                    SessionEvent::Started => {
                        self.sessions[i].1.started = true;
                    },
                    SessionEvent::Resolved => {
                        self.sessions[i].1.pending = None;
                    },
                    SessionEvent::Stopped => {
                        self.sessions[i].1.stopped = true;
                    },
                    _ => {},
                }
                proof {
                    let f: spec_fn(SessionModel) -> SessionModel = match ev {
                        EventModel::AwaitingApproval(p) => |st: SessionModel| SessionModel { pending: Some(((old(self)@.raise_seq + 1) as u64, p)), ..st },
                        EventModel::Started => |st: SessionModel| SessionModel { started: true, ..st },
                        EventModel::Resolved => |st: SessionModel| SessionModel { pending: None, ..st },
                        EventModel::Stopped => |st: SessionModel| SessionModel { stopped: true, ..st },
                        _ => |st: SessionModel| st,
                    };
                    assert(self@.sessions =~= mid.sessions.update(i as int, (id, f(mid.sessions[i as int].1))));
                    if was_present {
                        lemma_touch_at(old(self)@.sessions, id, i as int, f);
                    } else {
                        assert(i == old(self)@.sessions.len());
                    }
                    assert(self@.sessions == touch(old(self)@.sessions, id, f));
                    assert(self@ == record_model(old(self)@, id, ev));
                }
            },
        }
    }
}


impl Ledger {
    /// Observe a cumulative desktop token total: the first observation only sets the baseline,
    /// a forward total credits the delta, and a backwards total (a restarted transcript)
    /// re-baselines without crediting — so a restart resending a total never double-counts.
    pub fn observe_tokens(&mut self, observed_total: u32)
        requires
            old(self).wf(),
        ensures
            final(self).wf(),
            final(self)@ == observe_model(old(self)@, observed_total),
    {
        let credit: u32 = match self.last_total {
            None => 0,
            Some(prev) => if observed_total >= prev {
                observed_total - prev
            } else {
                0
            },
        };
        self.last_total = Some(observed_total);
        self.credited_total = self.credited_total.saturating_add(credit);
        proof {
            assert(self@.sessions =~= old(self)@.sessions);
        }
    }

    /// The live outstanding prompt, if any: the most recently raised prompt among the sessions
    /// that still pend.
    pub fn outstanding_prompt(&self) -> (r: Option<&Prompt>)
        ensures
            r matches Some(p) ==> outstanding_model(self@.sessions) == Some(p@),
            r is None ==> outstanding_model(self@.sessions) is None,
    {
        let ghost s = self@.sessions;
        let mut best: Option<usize> = None;
        let mut i: usize = 0;
        while i < self.sessions.len()
            invariant
                i <= self.sessions@.len(),
                s == self@.sessions,
                s.len() == self.sessions@.len(),
                match best {
                    Some(b) => b < i && s[b as int].1.pending is Some && outstanding(s.take(i as int))
                        == s[b as int].1.pending,
                    None => outstanding(s.take(i as int)) is None,
                },
            decreases self.sessions@.len() - i,
        {
            proof {
                lemma_take_step(s, i as int);
                self.lemma_session_at(i as int);
            }
            match &self.sessions[i].1.pending {
                Some(p) => {
                    match best {
                        Some(b) => {
                            proof {
                                self.lemma_session_at(b as int);
                            }
                            let cur: u64 = match &self.sessions[b].1.pending {
                                Some(q) => q.seq,
                                None => 0,
                            };
                            if p.seq >= cur {
                                best = Some(i);
                            }
                        },
                        None => {
                            best = Some(i);
                        },
                    }
                },
                None => {},
            }
            i = i + 1;
        }
        proof {
            assert(s.take(s.len() as int) =~= s);
        }
        match best {
            Some(b) => {
                proof {
                    self.lemma_session_at(b as int);
                }
                match &self.sessions[b].1.pending {
                    Some(p) => Some(&p.prompt),
                    None => None,
                }
            },
            None => None,
        }
    }

    /// Synthesize the heartbeat snapshot for the current state and clear the `completed`
    /// pulse. The counts are always present (a drop to zero included); the live approval rides
    /// every heartbeat; `tokens_today`, `msg` and `entries` stay absent.
    pub fn synthesize(&mut self) -> (r: SnapshotPacket)
        requires
            old(self).wf(),
        ensures
            final(self).wf(),
            r@ == synth_model(old(self)@),
            final(self)@ == (LedgerModel { completed: false, ..old(self)@ }),
    {
        let ghost s = self@.sessions;
        let mut running: usize = 0;
        let mut waiting: usize = 0;
        let mut i: usize = 0;
        while i < self.sessions.len()
            invariant
                i <= self.sessions@.len(),
                s == self@.sessions,
                s.len() == self.sessions@.len(),
                running == running_count(s.take(i as int)),
                waiting == waiting_count(s.take(i as int)),
                running <= i,
                waiting <= i,
            decreases self.sessions@.len() - i,
        {
            proof {
                lemma_take_step(s, i as int);
                self.lemma_session_at(i as int);
            }
            let st: &SessionState = &self.sessions[i].1;
            if st.started && !st.stopped {
                running = running + 1;
            }
            if st.pending.is_some() {
                waiting = waiting + 1;
            }
            i = i + 1;
        }
        proof {
            assert(s.take(s.len() as int) =~= s);
        }
        let completed: Option<bool> = if self.completed_pulse {
            Some(true)
        } else {
            None
        };
        let prompt: Option<Prompt> = match self.outstanding_prompt() {
            Some(p) => Some(p.duplicate()),
            None => None,
        };
        let packet = SnapshotPacket {
            total: Some(cap_u8(self.sessions.len())),
            running: Some(cap_u8(running)),
            waiting: Some(cap_u8(waiting)),
            completed,
            tokens: Some(self.credited_total),
            tokens_today: None,
            msg: None,
            entries: None,
            prompt,
        };
        self.completed_pulse = false;
        proof {
            assert(self@.sessions =~= old(self)@.sessions);
        }
        packet
    }
}


/// A prompt rides the packet exactly when some session waits: `waiting > 0` if and only if
/// there is an outstanding prompt.
pub proof fn waiting_iff_outstanding(s: Seq<(Seq<char>, SessionModel)>)
    ensures
        waiting_count(s) > 0 <==> outstanding(s) is Some,
    decreases s.len(),
{
    if s.len() > 0 {
        waiting_iff_outstanding(s.drop_last());
    }
}

/// The running count counts exactly the sessions that have started and not stopped, whatever
/// their pending prompt.
pub proof fn running_is_started_and_not_stopped(s: Seq<(Seq<char>, SessionModel)>)
    ensures
        running_count(s) == s.filter(|e: (Seq<char>, SessionModel)| e.1.started && !e.1.stopped).len(),
    decreases s.len(),
{
    reveal(Seq::filter);
    if s.len() > 0 {
        running_is_started_and_not_stopped(s.drop_last());
    }
}

/// Replacing one session by another that runs just as it did leaves the running count alone.
proof fn lemma_running_update(s: Seq<(Seq<char>, SessionModel)>, i: int, x: (Seq<char>, SessionModel))
    requires
        0 <= i < s.len(),
        is_running(x.1) == is_running(s[i].1),
    ensures
        running_count(s.update(i, x)) == running_count(s),
    decreases s.len(),
{
    let u = s.update(i, x);
    if i == s.len() - 1 {
        assert(u.drop_last() =~= s.drop_last());
    } else {
        lemma_running_update(s.drop_last(), i, x);
        assert(u.drop_last() =~= s.drop_last().update(i, x));
        assert(u.last() == s.last());
    }
}

/// Touching a session with a change that never starts or stops it leaves the running count
/// alone.
proof fn lemma_running_touch(s: Seq<(Seq<char>, SessionModel)>, id: Seq<char>, f: spec_fn(SessionModel) -> SessionModel)
    requires
        forall|st: SessionModel| #[trigger] is_running(f(st)) == is_running(st),
    ensures
        running_count(touch(s, id, f)) == running_count(s),
{
    if has_session(s, id) {
        assert forall|j: int| 0 <= j < s.len() && s[j].0 == id implies running_count(
            #[trigger] s.update(j, (id, f(s[j].1))),
        ) == running_count(s) by {
            assert(is_running(f(s[j].1)) == is_running(s[j].1));
            lemma_running_update(s, j, (id, f(s[j].1)));
        }
    } else {
        let x = (id, f(fresh_session()));
        assert(is_running(f(fresh_session())) == is_running(fresh_session()));
        assert(!is_running(x.1));
        assert(touch(s, id, f) == s.push(x));
        assert(s.push(x).drop_last() =~= s);
        assert(s.push(x).last() == x);
        assert(running_count(s.push(x)) == running_count(s));
    }
}

/// Raising or resolving a prompt never changes how many sessions are running: a session
/// waiting on the owner is still running.
pub proof fn prompts_do_not_change_running(m: LedgerModel, id: Seq<char>, p: PromptModel)
    ensures
        running_count(record_model(m, id, EventModel::AwaitingApproval(p)).sessions) == running_count(m.sessions),
        running_count(record_model(m, id, EventModel::Resolved).sessions) == running_count(m.sessions),
{
    let raise = |st: SessionModel| SessionModel { pending: Some(((m.raise_seq + 1) as u64, p)), ..st };
    let resolve = |st: SessionModel| SessionModel { pending: None, ..st };
    lemma_running_touch(m.sessions, id, raise);
    lemma_running_touch(m.sessions, id, resolve);
    assert(record_model(m, id, EventModel::AwaitingApproval(p)).sessions == touch(m.sessions, id, raise));
    assert(record_model(m, id, EventModel::Resolved).sessions == touch(m.sessions, id, resolve));
}

/// A session started for the first time is running.
pub proof fn a_new_started_session_runs(m: LedgerModel, id: Seq<char>)
    requires
        !has_session(m.sessions, id),
    ensures
        running_count(record_model(m, id, EventModel::Started).sessions) == running_count(m.sessions) + 1,
{
    let a = m.sessions.push((id, SessionModel { started: true, ..fresh_session() }));
    assert(a.drop_last() =~= m.sessions);
}

/// The waiting count counts exactly the sessions with a pending prompt.
pub proof fn waiting_is_pending(s: Seq<(Seq<char>, SessionModel)>)
    ensures
        waiting_count(s) == s.filter(|e: (Seq<char>, SessionModel)| e.1.pending is Some).len(),
    decreases s.len(),
{
    reveal(Seq::filter);
    if s.len() > 0 {
        waiting_is_pending(s.drop_last());
    }
}

/// The synthesized heartbeat counts every session in its total, the started-and-not-stopped
/// ones as running and the ones with a pending prompt as waiting, each capped at 255.
pub proof fn synthesized_counts_are_the_sessions(m: LedgerModel)
    ensures
        synth_model(m).total == Some(capped(m.sessions.len())),
        synth_model(m).running == Some(capped(
            m.sessions.filter(|e: (Seq<char>, SessionModel)| e.1.started && !e.1.stopped).len(),
        )),
        synth_model(m).waiting == Some(capped(m.sessions.filter(|e: (Seq<char>, SessionModel)| e.1.pending is Some).len())),
{
    running_is_started_and_not_stopped(m.sessions);
    waiting_is_pending(m.sessions);
}

/// Running and waiting each stay within the distinct-session total.
pub proof fn counts_within_total(s: Seq<(Seq<char>, SessionModel)>)
    ensures
        running_count(s) <= s.len(),
        waiting_count(s) <= s.len(),
    decreases s.len(),
{
    if s.len() > 0 {
        counts_within_total(s.drop_last());
    }
}

/// A synthesized packet never carries `prompt == None` while `waiting > 0`, and its running
/// and waiting counts never exceed its total.
pub proof fn synthesized_packet_is_consistent(m: LedgerModel)
    ensures
        synth_model(m).waiting != Some(0u8) <==> synth_model(m).prompt is Some,
        synth_model(m).running->Some_0 <= synth_model(m).total->Some_0,
        synth_model(m).waiting->Some_0 <= synth_model(m).total->Some_0,
{
    waiting_iff_outstanding(m.sessions);
    counts_within_total(m.sessions);
}

/// The outstanding prompt is one that pends, and no pending prompt was raised after it.
pub proof fn outstanding_is_newest(s: Seq<(Seq<char>, SessionModel)>)
    ensures
        outstanding(s) matches Some(x) ==> exists|i: int|
            0 <= i < s.len() && #[trigger] s[i].1.pending == Some(x),
        outstanding(s) matches Some(x) ==> forall|j: int|
            0 <= j < s.len() && (#[trigger] s[j].1.pending) is Some ==> s[j].1.pending->Some_0.0
                <= x.0,
        outstanding(s) is None ==> forall|j: int| 0 <= j < s.len() ==> (#[trigger] s[j].1.pending) is None,
    decreases s.len(),
{
    if s.len() > 0 {
        let d = s.drop_last();
        outstanding_is_newest(d);
        assert forall|j: int| 0 <= j < d.len() implies #[trigger] d[j] == s[j] by {}
        assert(s[s.len() - 1] == s.last());
        if let Some(x) = outstanding(s) {
            if outstanding(d) == Some(x) {
                let i = choose|i: int| 0 <= i < d.len() && #[trigger] d[i].1.pending == Some(x);
                assert(s[i] == d[i]);
            } else {
                assert(s[s.len() - 1].1.pending == Some(x));
            }
            assert forall|j: int| 0 <= j < s.len() && (#[trigger] s[j].1.pending) is Some implies s[j].1.pending->Some_0.0
                <= x.0 by {
                if j < d.len() {
                    assert(d[j] == s[j]);
                }
            }
        } else {
            assert forall|j: int| 0 <= j < s.len() implies (#[trigger] s[j].1.pending) is None by {
                if j < d.len() {
                    assert(d[j] == s[j]);
                }
            }
        }
    }
}

/// The newest raised prompt wins the glass: right after a session awaits approval, its prompt
/// is the outstanding one, whatever else pends.
pub proof fn newest_prompt_wins(m: LedgerModel, id: Seq<char>, p: PromptModel)
    requires
        ledger_wf(m),
        m.raise_seq < u64::MAX,
    ensures
        outstanding_model(record_model(m, id, EventModel::AwaitingApproval(p)).sessions) == Some(p),
{
    let n = record_model(m, id, EventModel::AwaitingApproval(p));
    let s = m.sessions;
    let t = n.sessions;
    let seq = (m.raise_seq + 1) as u64;
    let f = |st: SessionModel| SessionModel { pending: Some((seq, p)), ..st };
    let k: int = if has_session(s, id) {
        choose|i: int| 0 <= i < s.len() && s[i].0 == id
    } else {
        s.len() as int
    };
    assert(t[k].1.pending == Some((seq, p)));
    assert forall|j: int| 0 <= j < t.len() && j != k && (#[trigger] t[j].1.pending) is Some implies t[j].1.pending->Some_0.0
        < seq by {
        assert(t[j] == s[j]);
    }
    outstanding_is_newest(t);
    waiting_iff_outstanding(t);
    let x = outstanding(t)->Some_0;
    let i = choose|i: int| 0 <= i < t.len() && #[trigger] t[i].1.pending == Some(x);
    assert(t[k].1.pending->Some_0.0 <= x.0);
    if i != k {
        assert(t[i].1.pending->Some_0.0 < seq);
    }
}

/// A resolve is scoped to its own session: every other session is left as it was, so a
/// resolve on one session keeps another session's still-waiting prompt on the glass; and a
/// stop never clears a pending prompt.
pub proof fn resolve_is_scoped(m: LedgerModel, id: Seq<char>, k: int)
    requires
        ledger_wf(m),
        0 <= k < m.sessions.len(),
        m.sessions[k].0 != id,
    ensures
        record_model(m, id, EventModel::Resolved).sessions[k] == m.sessions[k],
        is_waiting(m.sessions[k].1) ==> outstanding_model(record_model(m, id, EventModel::Resolved).sessions)
            is Some,
        forall|j: int|
            0 <= j < m.sessions.len() ==> (#[trigger] record_model(m, id, EventModel::Stopped).sessions[j]).1.pending
                == m.sessions[j].1.pending,
{
    let t = record_model(m, id, EventModel::Resolved).sessions;
    if has_session(m.sessions, id) {
        let i = choose|i: int| 0 <= i < m.sessions.len() && m.sessions[i].0 == id;
        assert(i != k);
    }
    assert(t[k] == m.sessions[k]);
    if is_waiting(m.sessions[k].1) {
        outstanding_is_newest(t);
        assert(t[k].1.pending is Some);
    }
}

/// The token latch never double-counts: the first observation and a backwards total credit
/// nothing, a forward total credits exactly the delta, and the credited total never falls.
pub proof fn tokens_never_double_count(m: LedgerModel, observed: u32)
    ensures
        m.last_total is None ==> observe_model(m, observed).credited == m.credited,
        m.last_total is Some && observed < m.last_total->Some_0 ==> observe_model(m, observed).credited
            == m.credited,
        m.last_total is Some && observed >= m.last_total->Some_0 && m.credited + (observed
            - m.last_total->Some_0) <= u32::MAX ==> observe_model(m, observed).credited == m.credited
            + (observed - m.last_total->Some_0),
        observe_model(m, observed).credited >= m.credited,
        observe_model(m, observed).last_total == Some(observed),
{
}

} // verus!
