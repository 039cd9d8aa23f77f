//! Nine-slice panels: a rectangular UI frame assembled from four
//! corner sprites, four stretched edge sprites, all placed about the
//! panel's centre. Sizes are in world units; sprite scales are
//! per-mille of one tile.

use vstd::prelude::*;

use crate::graphics::ColorRgb;
use crate::TILE_UNITS;

verus! {

/// Sprite-sheet indices of the frame pieces.
#[derive(Clone, Copy, Debug, PartialEq, Eq, Structural)]
pub struct NineSpriteIndices {
    pub upper_left_index: usize,
    pub upper_right_index: usize,
    pub lower_left_index: usize,
    pub lower_right_index: usize,
    pub horizontal_index: usize,
    pub vertical_index: usize,
}

/// The frame pieces' places on the ASCII sprite sheet.
pub fn setup_nine_sprite() -> (r: NineSpriteIndices)
    ensures
        r.upper_left_index == 218,
        r.upper_right_index == 191,
        r.lower_left_index == 192,
        r.lower_right_index == 217,
        r.horizontal_index == 196,
        r.vertical_index == 179,
{
    NineSpriteIndices {
        upper_left_index: 13 * 16 + 10,
        upper_right_index: 11 * 16 + 15,
        lower_left_index: 12 * 16,
        lower_right_index: 13 * 16 + 9,
        horizontal_index: 12 * 16 + 4,
        vertical_index: 11 * 16 + 3,
    }
}

/// One sprite of a panel: its sheet index, offset from the panel
/// centre in world units, per-mille scale on each axis, and tint.
#[derive(Clone, Copy, Debug, PartialEq, Eq, Structural)]
pub struct SpritePlacement {
    pub index: usize,
    pub x: i32,
    pub y: i32,
    pub scale_x_pm: i32,
    pub scale_y_pm: i32,
    pub color: ColorRgb,
}

/// The tint every panel frame is drawn with.
pub open spec fn panel_color() -> ColorRgb {
    ColorRgb { r: 300, g: 300, b: 900 }
}

/// The eight frame sprites of a panel of the given size: corners at
/// unit scale half a tile inside each panel corner, edges stretched
/// to span the space between them.
pub open spec fn nine_sprite_layout(ind: NineSpriteIndices, width: int, height: int) -> Seq<
    SpritePlacement,
> {
    let left = (500 - width / 2) as i32;
    let right = (width / 2 - 500) as i32;
    let up = (height / 2 - 500) as i32;
    let down = (500 - height / 2) as i32;
    let hstretch = (width - 2 * TILE_UNITS) as i32;
    let vstretch = (height - 2 * TILE_UNITS) as i32;
    seq![
        SpritePlacement {
            index: ind.upper_left_index,
            x: left,
            y: up,
            scale_x_pm: 1000,
            scale_y_pm: 1000,
            color: panel_color(),
        },
        SpritePlacement {
            index: ind.vertical_index,
            x: left,
            y: 0,
            scale_x_pm: 1000,
            scale_y_pm: vstretch,
            color: panel_color(),
        },
        SpritePlacement {
            index: ind.lower_left_index,
            x: left,
            y: down,
            scale_x_pm: 1000,
            scale_y_pm: 1000,
            color: panel_color(),
        },
        SpritePlacement {
            index: ind.horizontal_index,
            x: 0,
            y: down,
            scale_x_pm: hstretch,
            scale_y_pm: 1000,
            color: panel_color(),
        },
        SpritePlacement {
            index: ind.horizontal_index,
            x: 0,
            y: up,
            scale_x_pm: hstretch,
            scale_y_pm: 1000,
            color: panel_color(),
        },
        SpritePlacement {
            index: ind.upper_right_index,
            x: right,
            y: up,
            scale_x_pm: 1000,
            scale_y_pm: 1000,
            color: panel_color(),
        },
        SpritePlacement {
            index: ind.vertical_index,
            x: right,
            y: 0,
            scale_x_pm: 1000,
            scale_y_pm: vstretch,
            color: panel_color(),
        },
        SpritePlacement {
            index: ind.lower_right_index,
            x: right,
            y: down,
            scale_x_pm: 1000,
            scale_y_pm: 1000,
            color: panel_color(),
        },
    ]
}

/// Build the eight frame sprites of a panel. Panels are at least two
/// tiles wide and tall, so the stretched edges never have negative
/// scale.
pub fn spawn_nine_sprite(ind: NineSpriteIndices, width: i32, height: i32) -> (r: Vec<
    SpritePlacement,
>)
    requires
        2 * TILE_UNITS <= width <= 1_000_000,
        2 * TILE_UNITS <= height <= 1_000_000,
    ensures
        r@ == nine_sprite_layout(ind, width as int, height as int),
{
    let color = ColorRgb { r: 300, g: 300, b: 900 };
    let left = 500 - width / 2;
    let right = width / 2 - 500;
    let up = height / 2 - 500;
    let down = 500 - height / 2;
    let hstretch = width - 2 * TILE_UNITS;
    let vstretch = height - 2 * TILE_UNITS;
    let mut r: Vec<SpritePlacement> = Vec::new();
    r.push(
        SpritePlacement {
            index: ind.upper_left_index,
            x: left,
            y: up,
            scale_x_pm: 1000,
            scale_y_pm: 1000,
            color,
        },
    );
    r.push(
        SpritePlacement {
            index: ind.vertical_index,
            x: left,
            y: 0,
            scale_x_pm: 1000,
            scale_y_pm: vstretch,
            color,
        },
    );
    r.push(
        SpritePlacement {
            index: ind.lower_left_index,
            x: left,
            y: down,
            scale_x_pm: 1000,
            scale_y_pm: 1000,
            color,
        },
    );
    r.push(
        SpritePlacement {
            index: ind.horizontal_index,
            x: 0,
            y: down,
            scale_x_pm: hstretch,
            scale_y_pm: 1000,
            color,
        },
    );
    r.push(
        SpritePlacement {
            index: ind.horizontal_index,
            x: 0,
            y: up,
            scale_x_pm: hstretch,
            scale_y_pm: 1000,
            color,
        },
    );
    r.push(
        SpritePlacement {
            index: ind.upper_right_index,
            x: right,
            y: up,
            scale_x_pm: 1000,
            scale_y_pm: 1000,
            color,
        },
    );
    r.push(
        SpritePlacement {
            index: ind.vertical_index,
            x: right,
            y: 0,
            scale_x_pm: 1000,
            scale_y_pm: vstretch,
            color,
        },
    );
    r.push(
        SpritePlacement {
            index: ind.lower_right_index,
            x: right,
            y: down,
            scale_x_pm: 1000,
            scale_y_pm: 1000,
            color,
        },
    );
    assert(r@ =~= nine_sprite_layout(ind, width as int, height as int));
    r
}

} // verus!
