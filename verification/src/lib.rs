//! A desk pet's logic, verified: the NUS JSON wire contract between the stick and its bridge,
//! the bridge's permission policy and the PreToolUse hook's fail-safe decision, the stick's
//! navigation, clock and receive path, and the glass's readings and text layout.
pub mod display;
pub mod hook;
pub mod json;
pub mod permission;
pub mod shell;
pub mod text;
pub mod wire;
