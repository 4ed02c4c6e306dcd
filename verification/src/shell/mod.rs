//! The stick's shell logic that stays device-independent: which screen the two buttons walk
//! to, who the stick is, the wall clock held against the monotonic tick, and the driven ports
//! the shell hands its effects to.
pub mod identity;
pub mod nav;
pub mod ports;
pub mod receive;
pub mod state;
pub mod tally;
pub mod wall;
