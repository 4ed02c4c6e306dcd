//! The PreToolUse hook's decision, end to end: parse the payload, ask the daemon, decide,
//! render.
//!
//! A hook process runs per tool call and cannot own a bonded link, so it forwards the tool-call
//! context to the daemon and waits for the reply — only for its own deadline, shorter than the
//! host's. Every failure funnels to a non-emitting outcome: a refused or failed socket and an
//! unanswered or gibberish reply are `DaemonDown`, an expired deadline is `TimedOut`, an
//! unbonded daemon is `Unbonded`. Only a real approval or denial becomes an emit. The socket
//! itself is the caller's: [`hook_stdout`] is handed the asking as a function.
use vstd::prelude::*;
use crate::json::{json_parse, tree_value};
use crate::permission::hook::{AskOutcome, decide, decide_model, stdout_text, to_stdout};
use crate::permission::ipc::HookRequest;
use crate::permission::pretooluse::{parse_pretooluse, payload_of};

verus! {

/// What kind of failure a read of the daemon's reply met.
#[derive(Clone, Copy, PartialEq, Eq, Debug, Structural)]
pub enum ReadErrorKind {
    /// The read would block — how some platforms report an expired read deadline.
    WouldBlock,
    /// The read timed out — how other platforms report an expired read deadline.
    TimedOut,
    /// Any other read failure.
    Other,
}

/// A read that ran out of our deadline is `TimedOut`; any other read failure means the daemon
/// is unusable. Both are non-emitting.
pub fn outcome_for_read_error(kind: ReadErrorKind) -> (r: AskOutcome)
    ensures
        r == (match kind {
            ReadErrorKind::WouldBlock | ReadErrorKind::TimedOut => AskOutcome::TimedOut,
            ReadErrorKind::Other => AskOutcome::DaemonDown,
        }),
{
    match kind {
        ReadErrorKind::WouldBlock | ReadErrorKind::TimedOut => AskOutcome::TimedOut,
        ReadErrorKind::Other => AskOutcome::DaemonDown,
    }
}

/// The whole hook decision as the string to write to stdout: parse, ask (through `resolve`),
/// decide, render.
///
/// A payload that cannot be parsed short-circuits to the empty string — the same safe degrade
/// as every device-unavailable outcome — without asking at all; it never guesses a request.
/// `resolve` need only be callable on the request the payload parses to: it is asked about
/// that request alone, and not at all when there is none.
pub fn hook_stdout<F: FnOnce(&HookRequest) -> AskOutcome>(stdin: &[u8], resolve: F) -> (r: String)
    requires
        forall|req: &HookRequest|
            (json_parse(stdin@) matches Some(t) && payload_of(tree_value(t)) == Some(req@)) ==> #[trigger] resolve.requires((req,)),
    ensures
        match json_parse(stdin@) {
            None => r@ == Seq::<char>::empty(),
            Some(t) => match payload_of(tree_value(t)) {
                None => r@ == Seq::<char>::empty(),
                Some(m) => exists|req: HookRequest, outcome: AskOutcome|
                    req@ == m && #[trigger] resolve.ensures((&req,), outcome) && r@ == stdout_text(
                        decide_model(outcome),
                    ),
            },
        },
{
    let request: HookRequest = match parse_pretooluse(stdin) {
        Ok(request) => request,
        Err(_) => return String::new(),
    };
    let outcome: AskOutcome = resolve(&request);
    let out: String = to_stdout(&decide(outcome));
    proof {
        assert(resolve.ensures((&request,), outcome));
    }
    out
}

/// [`hook_stdout`] for an asker that may be asked about any request — the form a caller holds
/// when it cannot see which request a payload parses to. The result is the same.
pub fn hook_stdout_for_any<F: FnOnce(&HookRequest) -> AskOutcome>(stdin: &[u8], resolve: F) -> (r: String)
    requires
        forall|req: &HookRequest| #[trigger] resolve.requires((req,)),
    ensures
        match json_parse(stdin@) {
            None => r@ == Seq::<char>::empty(),
            Some(t) => match payload_of(tree_value(t)) {
                None => r@ == Seq::<char>::empty(),
                Some(m) => exists|req: HookRequest, outcome: AskOutcome|
                    req@ == m && #[trigger] resolve.ensures((&req,), outcome) && r@ == stdout_text(
                        decide_model(outcome),
                    ),
            },
        },
{
    hook_stdout(stdin, resolve)
}

/// Whatever the asking resolves to, the hook prints something only for a real device
/// decision: a timeout, a dead daemon and an unbonded device all print nothing.
pub proof fn only_decisions_print(outcome: AskOutcome)
    ensures
        !(outcome is Decided) ==> stdout_text(decide_model(outcome)) == Seq::<char>::empty(),
        outcome is Decided ==> stdout_text(decide_model(outcome)).len() > 0,
{
}

} // verus!
