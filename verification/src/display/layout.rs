//! Where everything sits on the buddy's glass, for each of the panel's two shapes.
//!
//! Every screen the buddy draws is text on the same grid of rows: [`Layout::rows`] rows,
//! [`ROW_PITCH`] pixels apart, starting at [`Layout::top`]. Screens differ only in which rows
//! they claim. The home screen claims the top rows for the creature and its status, and the rows
//! from [`Layout::band_first_row`] down for the transcript band — which is exactly the band the
//! approval screen takes over while a permission prompt is pending.
//!
//! Landscape has 240 px of width, so the creature stands beside its status text. Turned a
//! quarter, 135 px is thirteen characters and nothing fits beside a 60 px creature, so the
//! portrait layout stacks and spends the height it gained on the band it made narrower.
//!
//! [`layout_ok`] states the geometry invariants; [`Layout::meets_invariants`] decides them,
//! [`Layout::check`] admits only a layout that meets them, and
//! [`shapes_are_ok`] proves that both shapes, and the overlay grids inset from them, meet them.
use vstd::prelude::*;

verus! {

/// The panel's native width, in pixels.
pub const SCREEN_WIDTH: u32 = 240;

/// The panel's native height, in pixels.
pub const SCREEN_HEIGHT: u32 = 135;

/// The width of one character cell of the fixed font, in pixels.
pub const CELL_WIDTH: u32 = 10;

/// The height of one character cell of the fixed font, in pixels.
pub const CELL_HEIGHT: u32 = 20;

/// The longest line the text primitive's line buffer holds, in characters.
pub const LINE_CAP: usize = 32;

/// Baseline-to-baseline distance between rows: the cell height plus one pixel of air.
pub const ROW_PITCH: i32 = 21;

/// The side of a creature sprite, in sprite cells.
pub const SPRITE_SIZE: u32 = 20;

/// Panel pixels per sprite cell: a 20×20 creature becomes 60×60.
pub const SPRITE_SCALE: u32 = 3;

/// How far a creature reaches once scaled.
pub const SPRITE_EXTENT: u32 = 60;

/// Rows in the status field beside (or below) the creature: the persona, and the link.
pub const STATUS_ROWS: usize = 2;

/// A pixel position on the canvas.
#[derive(Clone, Copy, PartialEq, Eq, Debug, Structural)]
pub struct Point {
    /// Pixels from the left edge.
    pub x: i32,
    /// Pixels from the top edge.
    pub y: i32,
}

/// A pixel extent.
#[derive(Clone, Copy, PartialEq, Eq, Debug, Structural)]
pub struct Size {
    /// Pixels across.
    pub width: u32,
    /// Pixels down.
    pub height: u32,
}

/// Where a value sits inside the fixed field it is padded to.
#[derive(Clone, Copy, PartialEq, Eq, Debug, Structural)]
pub enum FieldAlign {
    /// Flush left.
    Left,
    /// Centred on the field's width.
    Centred,
}

/// Which way up the panel is held.
#[derive(Clone, Copy, PartialEq, Eq, Debug, Structural)]
pub enum ScreenRotation {
    /// As mounted.
    Deg0,
    /// A quarter turn.
    Deg90,
    /// A half turn.
    Deg180,
    /// Three quarter turns.
    Deg270,
}

/// Where everything sits, for one canvas shape.
#[derive(Clone, Copy, PartialEq, Eq, Debug, Structural)]
pub struct Layout {
    /// The canvas this layout draws on. Every invariant is measured against it.
    pub canvas: Size,
    /// Text columns across the canvas — the width of a full-bleed field.
    pub cols: usize,
    /// Text rows down the canvas — the grid every screen claims from.
    pub rows: usize,
    /// The y of row 0.
    pub top: i32,
    /// The x of the first text column.
    pub left: i32,
    /// Top-left of the creature on the home screen.
    pub creature_origin: Point,
    /// Top-left of the status field beside (landscape) or below (portrait) the creature.
    pub status_origin: Point,
    /// Width of the status field, in characters.
    pub status_cols: usize,
    /// The first row of the transcript band — and of the approval screen that replaces it.
    pub band_first_row: usize,
    /// Where a value sits inside the fixed field it is padded to.
    pub align: FieldAlign,
}

/// The panel held horizontally: 240 px, twenty-four characters a line, six rows; the creature
/// at the left with its status beside it, and the bottom three rows the transcript band.
pub open spec fn landscape_layout() -> Layout {
    Layout {
        canvas: Size { width: SCREEN_WIDTH, height: SCREEN_HEIGHT },
        cols: 24,
        rows: 6,
        top: 4,
        left: 0,
        creature_origin: Point { x: 4, y: 4 },
        status_origin: Point { x: 70, y: 8 },
        status_cols: 16,
        band_first_row: 3,
        align: FieldAlign::Left,
    }
}

/// The panel held upright: 135 px, thirteen characters a line, eleven rows; creature, status,
/// then a six-row transcript band, each field centred on its own width.
pub open spec fn portrait_layout() -> Layout {
    Layout {
        canvas: Size { width: SCREEN_HEIGHT, height: SCREEN_WIDTH },
        cols: 13,
        rows: 11,
        top: 4,
        left: 2,
        creature_origin: Point { x: 37, y: 4 },
        status_origin: Point { x: 2, y: 67 },
        status_cols: 13,
        band_first_row: 5,
        align: FieldAlign::Centred,
    }
}

/// The y of text row `index` of `l`.
pub open spec fn row_y_of(l: Layout, index: int) -> int {
    l.top + ROW_PITCH * index
}

/// The y of status row `index` of `l`.
pub open spec fn status_y_of(l: Layout, index: int) -> int {
    l.status_origin.y + ROW_PITCH * index
}

/// `l`, one character in on every side.
pub open spec fn inset_of(l: Layout) -> Layout {
    Layout {
        cols: (l.cols - 2) as usize,
        rows: (l.rows - 2) as usize,
        top: (l.top + ROW_PITCH) as i32,
        left: (l.left + CELL_WIDTH) as i32,
        ..l
    }
}

/// The panel an overlay fills on `l`: the inset grid's rows, plus half a character of padding
/// around them.
pub open spec fn panel_of(l: Layout) -> (Point, Size) {
    let i = inset_of(l);
    let at = Point { x: (i.left - CELL_WIDTH / 2) as i32, y: (i.top - CELL_HEIGHT / 2) as i32 };
    (at, Size {
        width: (CELL_WIDTH * i.cols + CELL_WIDTH) as u32,
        height: (row_y_of(i, i.rows - 1) + CELL_HEIGHT + CELL_HEIGHT / 2 - at.y) as u32,
    })
}

/// The layout the picture is drawn through at `rotation`: a quarter turn either way is the
/// upright panel, a half turn or none the horizontal one.
pub open spec fn layout_for(rotation: ScreenRotation) -> Layout {
    if rotation is Deg90 || rotation is Deg270 { portrait_layout() } else { landscape_layout() }
}

/// The geometry invariants of a layout: its canvas is the panel at one of its two ways up; a
/// full-width field, the last row, the creature and the status field all stay on the canvas;
/// neither field is wider than the line buffer; the grid has rows and the transcript band
/// starts on one of them; the status field ends above the band; the status stands beside or
/// below the creature; and the band clears the creature.
pub open spec fn layout_ok(l: Layout) -> bool {
    let w = l.canvas.width as int;
    let h = l.canvas.height as int;
    &&& w == SCREEN_WIDTH || w == SCREEN_HEIGHT
    &&& 0 <= l.left && l.left + CELL_WIDTH * l.cols <= w
    &&& l.cols < LINE_CAP
    &&& l.rows > 0
    &&& 0 <= row_y_of(l, l.rows - 1) && row_y_of(l, l.rows - 1) + CELL_HEIGHT <= h
    &&& l.band_first_row < l.rows
    &&& 0 <= l.creature_origin.x && l.creature_origin.x + SPRITE_EXTENT <= w
    &&& 0 <= l.creature_origin.y && l.creature_origin.y + SPRITE_EXTENT <= h
    &&& 0 <= l.status_origin.x && l.status_origin.x + CELL_WIDTH * l.status_cols <= w
    &&& l.status_cols < LINE_CAP
    &&& 0 <= status_y_of(l, STATUS_ROWS - 1) && status_y_of(l, STATUS_ROWS - 1) + CELL_HEIGHT <= h
    &&& status_y_of(l, STATUS_ROWS - 1) + CELL_HEIGHT <= row_y_of(l, l.band_first_row as int)
    &&& l.status_origin.x >= l.creature_origin.x + SPRITE_EXTENT
        || l.status_origin.y >= l.creature_origin.y + SPRITE_EXTENT
    &&& row_y_of(l, l.band_first_row as int) >= l.creature_origin.y + SPRITE_EXTENT
}

/// The panel held horizontally.
pub fn landscape() -> (r: Layout)
    ensures
        r == landscape_layout(),
{
    Layout {
        canvas: Size { width: SCREEN_WIDTH, height: SCREEN_HEIGHT },
        cols: 24,
        rows: 6,
        top: 4,
        left: 0,
        creature_origin: Point { x: 4, y: 4 },
        status_origin: Point { x: 70, y: 8 },
        status_cols: 16,
        band_first_row: 3,
        align: FieldAlign::Left,
    }
}

/// The panel held upright.
pub fn portrait() -> (r: Layout)
    ensures
        r == portrait_layout(),
{
    Layout {
        canvas: Size { width: SCREEN_HEIGHT, height: SCREEN_WIDTH },
        cols: 13,
        rows: 11,
        top: 4,
        left: 2,
        creature_origin: Point { x: 37, y: 4 },
        status_origin: Point { x: 2, y: 67 },
        status_cols: 13,
        band_first_row: 5,
        align: FieldAlign::Centred,
    }
}

/// Whether `rotation` holds the panel upright.
pub fn is_portrait(rotation: ScreenRotation) -> (r: bool)
    ensures
        r == (rotation is Deg90 || rotation is Deg270),
{
    matches!(rotation, ScreenRotation::Deg90 | ScreenRotation::Deg270)
}

/// The canvas the buddy is drawn on at `rotation`.
pub fn canvas_size(rotation: ScreenRotation) -> (r: Size)
    ensures
        r == (if rotation is Deg90 || rotation is Deg270 {
            portrait_layout().canvas
        } else {
            landscape_layout().canvas
        }),
{
    Layout::for_rotation(rotation).canvas
}

impl Layout {
    /// The layout the picture is drawn through at `rotation`: a half turn is still landscape
    /// and a three-quarter turn still portrait.
    pub fn for_rotation(rotation: ScreenRotation) -> (r: Layout)
        ensures
            r == (if rotation is Deg90 || rotation is Deg270 {
                portrait_layout()
            } else {
                landscape_layout()
            }),
    {
        if is_portrait(rotation) {
            portrait()
        } else {
            landscape()
        }
    }

    /// The y of text row `index`.
    pub fn row_y(&self, index: usize) -> (r: i32)
        requires
            i32::MIN <= row_y_of(*self, index as int) <= i32::MAX,
        ensures
            r == row_y_of(*self, index as int),
    {
        (self.top as i64 + ROW_PITCH as i64 * index as i64) as i32
    }

    /// The top-left of text row `index`, at the layout's left margin.
    pub fn row_origin(&self, index: usize) -> (r: Point)
        requires
            i32::MIN <= row_y_of(*self, index as int) <= i32::MAX,
        ensures
            r == (Point { x: self.left, y: row_y_of(*self, index as int) as i32 }),
    {
        Point { x: self.left, y: self.row_y(index) }
    }

    /// The top-left of status row `index` — placed against the creature rather than on the
    /// screen-wide grid.
    pub fn status_row(&self, index: usize) -> (r: Point)
        requires
            i32::MIN <= status_y_of(*self, index as int) <= i32::MAX,
        ensures
            r == (Point { x: self.status_origin.x, y: status_y_of(*self, index as int) as i32 }),
    {
        Point {
            x: self.status_origin.x,
            y: (self.status_origin.y as i64 + ROW_PITCH as i64 * index as i64) as i32,
        }
    }

    /// The same layout, one character in on every side — the grid an overlay's panel draws on,
    /// leaving a one-character frame of the screen underneath showing.
    pub fn inset(&self) -> (r: Layout)
        requires
            self.cols >= 2,
            self.rows >= 2,
            self.top + ROW_PITCH <= i32::MAX,
            self.left + CELL_WIDTH <= i32::MAX,
        ensures
            r == inset_of(*self),
    {
        Layout {
            cols: self.cols - 2,
            rows: self.rows - 2,
            top: self.top + ROW_PITCH,
            left: self.left + CELL_WIDTH as i32,
            ..*self
        }
    }

    /// The panel an overlay fills: the inset grid's rows, plus half a character of padding
    /// around them, in canvas pixels.
    pub fn panel(&self) -> (r: (Point, Size))
        requires
            self.cols >= 2,
            self.rows >= 2,
            self.top + ROW_PITCH <= i32::MAX,
            self.left + CELL_WIDTH <= i32::MAX,
            layout_ok(inset_of(*self)),
        ensures
            r == panel_of(*self),
    {
        let inset: Layout = self.inset();
        let at: Point = Point {
            x: inset.left - (CELL_WIDTH / 2) as i32,
            y: inset.top - (CELL_HEIGHT / 2) as i32,
        };
        let last: i64 = inset.top as i64 + ROW_PITCH as i64 * ((inset.rows - 1) as i64);
        let size: Size = Size {
            width: CELL_WIDTH * inset.cols as u32 + CELL_WIDTH,
            height: (last + CELL_HEIGHT as i64 + (CELL_HEIGHT / 2) as i64 - at.y as i64) as u32,
        };
        (at, size)
    }

    /// How many rows the transcript band (or the approval screen) has.
    pub fn band_rows(&self) -> (r: usize)
        requires
            self.band_first_row <= self.rows,
        ensures
            r == self.rows - self.band_first_row,
    {
        self.rows - self.band_first_row
    }

    /// How many characters wide a band line is: the full width less the column the scroll
    /// indicator stands in.
    pub fn band_cols(&self) -> (r: usize)
        requires
            self.cols >= 1,
        ensures
            r == self.cols - 1,
    {
        self.cols - 1
    }

    /// The x of the scroll indicator's track — the column the band gives up.
    pub fn scroll_x(&self) -> (r: i32)
        requires
            layout_ok(*self),
            self.cols >= 1,
        ensures
            r == self.left + CELL_WIDTH * (self.cols - 1),
    {
        self.left + (CELL_WIDTH as i32) * (self.band_cols() as i32)
    }

    /// Refuse a layout that breaks a geometry invariant: the checking entry point every layout
    /// is held to before it is drawn through, callable only on a layout that meets
    /// [`layout_ok`] — as [`shapes_are_ok`] proves both shapes and their insets do.
    pub fn check(&self)
        requires
            layout_ok(*self),
    {
        let sound: bool = self.meets_invariants();
        proof {
            assert(sound);
        }
    }

    /// Whether this layout meets every geometry invariant of [`layout_ok`].
    pub fn meets_invariants(&self) -> (r: bool)
        ensures
            r == layout_ok(*self),
    {
        if !(self.canvas.width == SCREEN_WIDTH || self.canvas.width == SCREEN_HEIGHT) {
            return false;
        }
        if self.cols >= LINE_CAP || self.status_cols >= LINE_CAP {
            return false;
        }
        if self.rows == 0 || self.rows - 1 > 0xFFFF_FFFF {
            return false;
        }
        if self.band_first_row >= self.rows {
            return false;
        }
        let w: i64 = self.canvas.width as i64;
        let h: i64 = self.canvas.height as i64;
        let left: i64 = self.left as i64;
        let top: i64 = self.top as i64;
        let cell_w: i64 = CELL_WIDTH as i64;
        let cell_h: i64 = CELL_HEIGHT as i64;
        let pitch: i64 = ROW_PITCH as i64;
        let extent: i64 = SPRITE_EXTENT as i64;
        let last_y: i64 = top + pitch * ((self.rows - 1) as i64);
        let band_y: i64 = top + pitch * (self.band_first_row as i64);
        let cx: i64 = self.creature_origin.x as i64;
        let cy: i64 = self.creature_origin.y as i64;
        let sx: i64 = self.status_origin.x as i64;
        let sy: i64 = self.status_origin.y as i64;
        let status_last: i64 = sy + pitch * ((STATUS_ROWS - 1) as i64);
        (0 <= left && left + cell_w * (self.cols as i64) <= w)
            && (0 <= last_y && last_y + cell_h <= h)
            && (0 <= cx && cx + extent <= w)
            && (0 <= cy && cy + extent <= h)
            && (0 <= sx && sx + cell_w * (self.status_cols as i64) <= w)
            && (0 <= status_last && status_last + cell_h <= h)
            && status_last + cell_h <= band_y
            && (sx >= cx + extent || sy >= cy + extent)
            && band_y >= cy + extent
    }
}

/// A layout that meets the invariants ends every row of its grid above the canvas's bottom
/// edge, gives the transcript band at least one row, and places the band below the creature.
pub proof fn a_sound_layout_keeps_every_row_on_the_canvas(l: Layout, k: int)
    requires
        layout_ok(l),
        0 <= k < l.rows,
    ensures
        row_y_of(l, k) + CELL_HEIGHT <= l.canvas.height,
        l.rows - l.band_first_row >= 1,
        row_y_of(l, l.band_first_row as int) >= l.creature_origin.y + SPRITE_EXTENT,
{
}

/// Both shapes of the panel, and the overlay grids inset from them, meet every geometry
/// invariant.
pub proof fn shapes_are_ok()
    ensures
        layout_ok(landscape_layout()),
        layout_ok(portrait_layout()),
        layout_ok(inset_of(landscape_layout())),
        layout_ok(inset_of(portrait_layout())),
{
}

} // verus!
