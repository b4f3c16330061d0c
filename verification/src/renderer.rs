//! Where each sprite goes on the screen.

use vstd::prelude::*;

use crate::geometry::{half_toward_zero, point_new, point_offset, rect_from_center, Point, Rect};

verus! {

/// The screen rectangle of a sprite with frame `region` for an entity at
/// `pos`, on a canvas of `width` by `height` pixels: the world's origin is
/// the canvas centre, and the frame is centred on the entity.
pub open spec fn screen_rect_spec(pos: Point, region: Rect, width: u32, height: u32) -> Rect {
    let center = point_new(
        half_toward_zero((width as i32) as int),
        half_toward_zero((height as i32) as int),
    );
    rect_from_center(point_offset(pos, center.x as int, center.y as int), region.w as int, region.h as int)
}

/// The screen rectangle for a sprite with frame `region` of an entity at
/// `pos` on a `width` by `height` canvas.
pub fn screen_rect(pos: Point, region: Rect, width: u32, height: u32) -> (r: Rect)
    ensures
        r == screen_rect_spec(pos, region, width, height),
{
    let w = width as i32;
    let h = height as i32;
    let screen_position = pos.add_point(Point::new(w / 2, h / 2));
    Rect::from_center(screen_position, region.width(), region.height())
}

/// The world's origin is drawn at the canvas centre and the sprite is
/// centred on its entity: on a canvas of even size, the sprite of an entity
/// at `pos` starts `w / 2` left of and `h / 2` above the point
/// `pos + (width / 2, height / 2)`, with the frame's size, as long as
/// nothing reaches the clamping bounds.
pub proof fn lemma_screen_rect_centres(pos: Point, region: Rect, width: u32, height: u32)
    requires
        -1000000 <= pos.x <= 1000000,
        -1000000 <= pos.y <= 1000000,
        width <= 1000000,
        height <= 1000000,
        1 <= region.w <= 1000000,
        1 <= region.h <= 1000000,
    ensures
        screen_rect_spec(pos, region, width, height) == (Rect {
            x: (pos.x + width / 2 - region.w / 2) as i32,
            y: (pos.y + height / 2 - region.h / 2) as i32,
            w: region.w,
            h: region.h,
        }),
{
    assert((width as i32) == width);
    assert((height as i32) == height);
}

} // verus!
