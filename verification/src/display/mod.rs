//! What the buddy's glass shows, as plain values and plain text: the view the firmware fills
//! each frame, the compact readings of counts and spans, word wrapping, and the small pieces of
//! arithmetic the screens lay themselves out by.
pub mod approval;
pub mod backdrop;
pub mod clock;
pub mod hud;
pub mod info;
pub mod layout;
pub mod meter;
pub mod overlay;
pub mod page;
pub mod pet;
pub mod screen;
pub mod status;
pub mod units;
pub mod view;
pub mod wrap;
