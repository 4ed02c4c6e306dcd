//! The bridge-side permission and heartbeat policy — pure, time-injected and effect-free. It
//! decides; the daemon and the per-tool-call hook do the socket, the link, the clock and
//! stdin/stdout.
//!
//! Two fail-open hazards are closed here. On the host, only a real device decision emits an
//! allow or a deny ([`hook::decide`]); every other outcome prints nothing and hands control to
//! the normal terminal prompt. On the device, a synthesized snapshot passes
//! [`gating::GatedSnapshot::gate`], which re-attaches the live prompt whenever one is
//! outstanding, so a keepalive can never clear a live approval.
pub mod gating;
pub mod hook;
pub mod ipc;
pub mod ledger;
pub mod pretooluse;
