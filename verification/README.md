# buddy

The logic of a desk pet that shows a coding agent's permission prompts on a small BLE stick and
answers them with its two buttons, written in Verus and proved against its contracts.

- `src/wire` — the NUS JSON wire contract: line framing with typed truncation errors, the
  exhaustive classification of inbound lines, the asymmetric snapshot merge, the command set
  and its acks, the device's permission response, and the central-side serializers. The
  round trips (serialize, then classify) are proved.
- `src/json` — the JSON value the wire carries, its compact text, and lookups by key; parsing
  is serde_json's, behind one trusted wrapper.
- `src/permission` — the bridge's policy: the fail-safe PreToolUse decision, the emission
  gating that keeps a live prompt on every heartbeat, the session ledger that synthesizes the
  heartbeat, the hook ↔ daemon messages, and the PreToolUse payload reader.
- `src/hook.rs` — the hook's whole decision, handed the daemon round trip as a function.
- `src/shell` — the stick's device state (the prompt fail-safe and the two buttons' claim
  order), the pet's running totals, navigation, identity, wall clock, receive path, and the
  driven ports with the effects carried out through them.
- `src/display` — the view values, the compact readings, word wrapping, the screen geometry
  and its invariants, the background strips that paint every pixel once, and each screen as
  rows of text: the transcript band and its scroll thumb, the pet page's meters and counts,
  the overlays, the titled prose pages and reporting pages, the clock's tones and the
  compositor's layers.
- `app/` — the hook binary: stdin, environment, the unix socket and stdout.
- `tests/` — scenario tests for every module.
