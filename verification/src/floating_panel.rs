//! Where the floating correction panel is placed on the screen.

use vstd::prelude::*;

verus! {

/// A point on the screen, in physical pixels.
#[derive(Clone, Copy, Debug, PartialEq, Eq, Structural)]
pub struct ScreenPosition {
    pub x: i32,
    pub y: i32,
}

/// Width of the panel opened from the frontend.
pub const PANEL_WIDTH: i32 = 360;

/// Height of the panel opened from the frontend.
pub const PANEL_HEIGHT: i32 = 300;

/// Gap kept between the panel and the cursor or the screen edge.
pub const PANEL_MARGIN: i32 = 12;

/// The anchor used when the cursor position could not be read.
pub open spec fn default_cursor() -> ScreenPosition {
    ScreenPosition { x: 400, y: 400 }
}

/// `v` clamped into the range of `i32`.
pub open spec fn clamp_i32(v: int) -> int {
    if v < i32::MIN {
        i32::MIN as int
    } else if v > i32::MAX {
        i32::MAX as int
    } else {
        v
    }
}

/// The cursor position, or the default anchor when it is unknown.
pub fn cursor_or_default(cursor: Option<ScreenPosition>) -> (r: ScreenPosition)
    ensures
        r == (match cursor {
            Some(c) => c,
            None => default_cursor(),
        }),
{
    match cursor {
        Some(c) => c,
        None => ScreenPosition { x: 400, y: 400 },
    }
}

/// Placement when the screen size is unknown: the panel keeps the cursor's
/// column and sits `height + PANEL_MARGIN` pixels above it, saturating at
/// the bounds of `i32`.
pub fn calculate_panel_position(cursor: &ScreenPosition, width: i32, height: i32) -> (r:
    ScreenPosition)
    requires
        height + PANEL_MARGIN <= i32::MAX,
    ensures
        r.x == cursor.x,
        r.y == clamp_i32(cursor.y - (height + PANEL_MARGIN)),
        i32::MIN <= cursor.y - height - 12 <= i32::MAX ==> r.y == cursor.y - height - 12,
        cursor.y - height - 12 > i32::MAX ==> r.y == i32::MAX,
        cursor.y - height - 12 < i32::MIN ==> r.y == i32::MIN,
{
    let lift: i64 = height as i64 + PANEL_MARGIN as i64;
    let v: i64 = cursor.y as i64 - lift;
    let y: i32 = if v < i32::MIN as i64 {
        i32::MIN
    } else if v > i32::MAX as i64 {
        i32::MAX
    } else {
        v as i32
    };
    ScreenPosition { x: cursor.x, y }
}

/// The vertical coordinate chosen on a screen of height `screen_h`: above the
/// cursor when there is room, else below it, then pulled up so that the
/// panel's bottom edge stays on the screen.
pub open spec fn panel_y(cursor_y: int, height: int, screen_h: int) -> int {
    let above: int = cursor_y - height - PANEL_MARGIN;
    let y: int = if above < 0 {
        cursor_y + PANEL_MARGIN
    } else {
        above
    };
    if y + height > screen_h {
        screen_h - height - PANEL_MARGIN
    } else {
        y
    }
}

/// Half of `w`, rounded toward zero as integer division does.
pub open spec fn half_toward_zero(w: int) -> int {
    if w >= 0 {
        w / 2
    } else {
        -((-w) / 2)
    }
}

/// The horizontal coordinate chosen on a screen of width `screen_w`: centred
/// on the cursor, moved right to the margin when it would start left of the
/// screen, and moved left when it would end past the right edge.
pub open spec fn panel_x(cursor_x: int, width: int, screen_w: int) -> int {
    let centred: int = cursor_x - half_toward_zero(width);
    let x: int = if centred < 0 {
        PANEL_MARGIN as int
    } else {
        centred
    };
    if x + width > screen_w {
        screen_w - width - PANEL_MARGIN
    } else {
        x
    }
}

/// `v` lies in the range of `i32`.
pub open spec fn fits_i32(v: int) -> bool {
    i32::MIN <= v <= i32::MAX
}

/// Every intermediate value of the placement on a known screen fits in
/// `i32` (the placement overflows otherwise).
pub open spec fn placement_in_i32(
    cursor: ScreenPosition,
    width: int,
    height: int,
    screen_w: int,
    screen_h: int,
) -> bool {
    let above: int = cursor.y - height - PANEL_MARGIN;
    let y: int = if above < 0 {
        cursor.y + PANEL_MARGIN
    } else {
        above
    };
    let centred: int = cursor.x - half_toward_zero(width);
    let x: int = if centred < 0 {
        PANEL_MARGIN as int
    } else {
        centred
    };
    &&& fits_i32(cursor.y - height)
    &&& fits_i32(above)
    &&& (above < 0 ==> fits_i32(cursor.y + PANEL_MARGIN))
    &&& fits_i32(y + height)
    &&& (y + height > screen_h ==> fits_i32(screen_h - height) && fits_i32(
        screen_h - height - PANEL_MARGIN,
    ))
    &&& fits_i32(centred)
    &&& fits_i32(x + width)
    &&& (x + width > screen_w ==> fits_i32(screen_w - width) && fits_i32(
        screen_w - width - PANEL_MARGIN,
    ))
}

fn in_i32(v: i64) -> (b: bool)
    ensures
        b == fits_i32(v as int),
{
    i32::MIN as i64 <= v && v <= i32::MAX as i64
}

/// Whether the placement of a `width` by `height` panel against `cursor`
/// on a `screen_w` by `screen_h` screen can be computed in `i32`.
pub fn placement_is_representable(
    cursor: &ScreenPosition,
    width: i32,
    height: i32,
    screen_w: i32,
    screen_h: i32,
) -> (r: bool)
    ensures
        r == placement_in_i32(*cursor, width as int, height as int, screen_w as int, screen_h as int),
{
    let cx: i64 = cursor.x as i64;
    let cy: i64 = cursor.y as i64;
    let w: i64 = width as i64;
    let h: i64 = height as i64;
    let sw: i64 = screen_w as i64;
    let sh: i64 = screen_h as i64;
    let above: i64 = cy - h - 12;
    let y: i64 = if above < 0 {
        cy + 12
    } else {
        above
    };
    let centred: i64 = cx - w / 2;
    let x: i64 = if centred < 0 {
        12
    } else {
        centred
    };
    in_i32(cy - h) && in_i32(above) && (above >= 0 || in_i32(cy + 12)) && in_i32(y + h) && (y + h <= sh
        || (in_i32(sh - h) && in_i32(sh - h - 12))) && in_i32(centred) && in_i32(x + w) && (x + w <= sw
        || (in_i32(sw - w) && in_i32(sw - w - 12)))
}

/// Placement on a screen of known size: prefer above the cursor, else below,
/// and keep the panel within the screen's right and bottom edges.
pub fn calculate_panel_position_on_screen(
    cursor: &ScreenPosition,
    width: i32,
    height: i32,
    screen_w: i32,
    screen_h: i32,
) -> (r: ScreenPosition)
    requires
        placement_in_i32(*cursor, width as int, height as int, screen_w as int, screen_h as int),
    ensures
        r.x == panel_x(cursor.x as int, width as int, screen_w as int),
        r.y == panel_y(cursor.y as int, height as int, screen_h as int),
        r.x + width <= screen_w,
        r.y + height <= screen_h,
        0 <= width && width / 2 <= cursor.x && cursor.x - width / 2 + width <= screen_w ==> r.x
            == cursor.x - width / 2,
        height + 12 <= cursor.y <= screen_h ==> r.y == cursor.y - height - 12,
        0 <= cursor.y < height + 12 && cursor.y + 12 + height <= screen_h ==> r.y == cursor.y + 12,
        width + PANEL_MARGIN <= screen_w ==> 0 <= r.x,
        height + PANEL_MARGIN <= screen_h ==> 0 <= r.y || cursor.y + PANEL_MARGIN < 0,
{
    let mut y: i32 = cursor.y - height - PANEL_MARGIN;
    if y < 0 {
        y = cursor.y + PANEL_MARGIN;
    }
    if y + height > screen_h {
        y = screen_h - height - PANEL_MARGIN;
    }
    let mut x: i32 = cursor.x - width / 2;
    if x < 0 {
        x = PANEL_MARGIN;
    }
    if x + width > screen_w {
        x = screen_w - width - PANEL_MARGIN;
    }
    ScreenPosition { x, y }
}

/// With room above the cursor, the panel ends `PANEL_MARGIN` pixels above
/// it; without room above but with room below, it starts `PANEL_MARGIN`
/// pixels below it.
pub proof fn lemma_panel_prefers_above(cursor_y: int, height: int, screen_h: int)
    requires
        0 <= height,
        cursor_y <= screen_h,
    ensures
        cursor_y >= height + PANEL_MARGIN ==> panel_y(cursor_y, height, screen_h) + height
            + PANEL_MARGIN == cursor_y,
        0 <= cursor_y < height + PANEL_MARGIN && cursor_y + PANEL_MARGIN + height <= screen_h
            ==> panel_y(cursor_y, height, screen_h) == cursor_y + PANEL_MARGIN,
{
}

} // verus!
