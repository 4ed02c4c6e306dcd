//! The emission gating rule — the device-side anti-hazard, made unrepresentable.
//!
//! An absent `prompt` field in a snapshot means "the prompt is gone", so a bare keepalive
//! snapshot emitted while a prompt is outstanding would clear a live approval off the glass.
//! [`GatedSnapshot`] is the guard: a synthesized packet reaches the serializer only through
//! [`GatedSnapshot::gate`], which re-attaches the outstanding prompt whenever one is live.
//! Clearing the prompt stays a deliberate act: `gate` is passed no outstanding prompt only when
//! the clear is intended.
use vstd::prelude::*;
use crate::wire::inbound::{PacketModel, Prompt, PromptModel, SnapshotPacket, StateModel, merged, opt_prompt_view};

verus! {

/// A snapshot that has passed the emission gate: if a prompt was outstanding at gate time, the
/// packet carries it.
#[derive(Clone, PartialEq, Eq, Debug)]
pub struct GatedSnapshot(SnapshotPacket);

/// The packet that passes: the outstanding prompt, when there is one, replaces the
/// packet's own; every other field is untouched.
pub open spec fn gated(packet: PacketModel, outstanding: Option<PromptModel>) -> PacketModel {
    match outstanding {
        Some(q) => PacketModel { prompt: Some(q), ..packet },
        None => packet,
    }
}

impl View for GatedSnapshot {
    type V = PacketModel;

    closed spec fn view(&self) -> PacketModel {
        self.0@
    }
}

impl GatedSnapshot {
    /// Gate a synthesized snapshot against the live outstanding prompt: with one, the packet
    /// carries it (restoring it if the packet omitted it); without one, the packet passes as
    /// is, and an absent prompt is then the deliberate clear.
    pub fn gate(packet: SnapshotPacket, outstanding: Option<Prompt>) -> (r: Self)
        ensures
            r@ == gated(packet@, opt_prompt_view(outstanding)),
    {
        match outstanding {
            Some(prompt) => GatedSnapshot(SnapshotPacket { prompt: Some(prompt), ..packet }),
            None => GatedSnapshot(packet),
        }
    }

    /// The gated packet, ready for serialization.
    pub fn packet(&self) -> (r: &SnapshotPacket)
        ensures
            r@ == self@,
    {
        &self.0
    }

    /// Consume the gated snapshot, yielding the packet for serialization.
    pub fn into_packet(self) -> (r: SnapshotPacket)
        ensures
            r@ == self@,
    {
        self.0
    }
}

/// A gated snapshot never clears a live approval: whatever the device held, merging a packet
/// gated against an outstanding prompt leaves exactly that prompt on the glass, and gating
/// changes nothing but the prompt.
pub proof fn gated_snapshot_keeps_the_prompt(s: StateModel, packet: PacketModel, q: PromptModel)
    ensures
        gated(packet, Some(q)).prompt == Some(q),
        merged(s, gated(packet, Some(q))).prompt == Some(q),
        gated(packet, Some(q)) == (PacketModel { prompt: Some(q), ..packet }),
        gated(packet, None) == packet,
{
}

} // verus!
