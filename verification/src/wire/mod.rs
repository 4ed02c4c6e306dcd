//! The desk pet's NUS JSON wire contract: framing, classification, commands, permission
//! responses and the central-side serializers.
pub mod command;
pub mod framing;
pub mod inbound;
pub mod outbound;
pub mod permission;
