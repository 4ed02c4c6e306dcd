//! The compositor's decisions: which layers are drawn, in what order.
//!
//! 1. **the passkey takeover** — an active passkey is the whole glass and the other layers do
//!    not run at all;
//! 2. **the screen** — home, a pet page, an info page, or the charging clock;
//! 3. **the overlay** — a bordered panel over the screen, at most one.
//!
//! No pixel is painted twice in one frame: while an overlay is open the screen underneath is
//! drawn with the overlay's panel masked out, so the panel reaches the glass once, as the panel.
use vstd::prelude::*;
use crate::display::layout::{Layout, Point, ScreenRotation, Size, SCREEN_HEIGHT, SCREEN_WIDTH, layout_for, panel_of};
use crate::display::view::{Overlay, Screen};

verus! {

/// What one frame draws.
#[derive(Clone, Copy, PartialEq, Eq, Debug)]
pub enum Frame {
    /// The passkey, alone on the glass.
    Passkey(u32),
    /// A screen, masked where an open overlay's panel stands, then the overlay.
    Layers {
        /// The screen underneath.
        screen: Screen,
        /// The panel the screen is not drawn under, while an overlay is open.
        mask: Option<(Point, Size)>,
        /// The overlay on top.
        overlay: Overlay,
    },
}

/// What a frame draws: the passkey alone when one is active; else the screen, masked under the
/// panel of the layout for `rotation` while an overlay is open, then the overlay.
pub open spec fn frame_of(passkey: Option<u32>, screen: Screen, overlay: Overlay, rotation: ScreenRotation) -> Frame {
    match passkey {
        Some(key) => Frame::Passkey(key),
        None => Frame::Layers {
            screen,
            mask: if overlay is Nothing { None } else { Some(panel_of(layout_for(rotation))) },
            overlay,
        },
    }
}

/// The frame for a passkey, a screen and an overlay at `rotation`.
pub fn compose(passkey: Option<u32>, screen: Screen, overlay: Overlay, rotation: ScreenRotation) -> (r: Frame)
    ensures
        r == frame_of(passkey, screen, overlay, rotation),
        match passkey {
            Some(key) => r == Frame::Passkey(key),
            None => r matches Frame::Layers { screen: s, mask, overlay: o } && s == screen && o == overlay
                && (mask is Some <==> !(overlay is Nothing)),
        },
{
    let layout: Layout = Layout::for_rotation(rotation);
    match passkey {
        Some(key) => Frame::Passkey(key),
        None => {
            let mask: Option<(Point, Size)> = if overlay.is_open() {
                proof {
                    crate::display::layout::shapes_are_ok();
                }
                Some(layout.panel())
            } else {
                None
            };
            Frame::Layers { screen, mask, overlay }
        },
    }
}

/// The canvas a panel held at `rotation` presents: 240 px across and 135 down held
/// horizontally, 135 across and 240 down held upright.
pub open spec fn canvas_at(rotation: ScreenRotation) -> (int, int) {
    if rotation is Deg90 || rotation is Deg270 {
        (SCREEN_HEIGHT as int, SCREEN_WIDTH as int)
    } else {
        (SCREEN_WIDTH as int, SCREEN_HEIGHT as int)
    }
}

/// An open overlay's mask stands inside the canvas the panel presents at that rotation, with
/// at least a pixel of the screen underneath showing on every side — so the screen is masked
/// only where the panel is drawn, whichever way the stick is held.
pub proof fn the_mask_stands_inside_the_canvas(screen: Screen, overlay: Overlay, rotation: ScreenRotation)
    requires
        !(overlay is Nothing),
    ensures
        frame_of(None, screen, overlay, rotation) matches Frame::Layers { mask: Some((at, size)), .. } && {
            let (w, h) = canvas_at(rotation);
            &&& 0 < at.x && at.x + size.width < w
            &&& 0 < at.y && at.y + size.height < h
            &&& size.width > 0 && size.height > 0
        },
{
}

/// The layout for a rotation draws on the canvas the panel presents that way up.
pub proof fn each_rotation_draws_on_its_own_canvas(rotation: ScreenRotation)
    ensures
        (layout_for(rotation).canvas.width as int, layout_for(rotation).canvas.height as int) == canvas_at(rotation),
{
}

} // verus!
