//! The regions a render context records: its viewport, which may be flipped so that y
//! points up, and the source and destination regions of an image blit.
use crate::render_graph::Rect2D;
use vstd::prelude::*;

verus! {

/// A viewport in whole pixels, with its depth range. A negative height flips it: it then
/// runs upwards from `y`.
#[derive(Debug, Clone, Copy, PartialEq, Eq, Structural)]
pub struct Viewport {
    pub x: i64,
    pub y: i64,
    pub width: i64,
    pub height: i64,
    pub min_depth: u32,
    pub max_depth: u32,
}

/// The viewport over `rect`, over the full depth range. A flipped viewport starts at the
/// rectangle's height less its y offset and has a negative height.
pub open spec fn viewport_spec(rect: Rect2D, flipped: bool) -> Viewport {
    Viewport {
        x: rect.x as i64,
        y: if flipped { (rect.height - rect.y) as i64 } else { rect.y as i64 },
        width: rect.width as i64,
        height: (if flipped { -(rect.height as int) } else { rect.height as int }) as i64,
        min_depth: 0,
        max_depth: 1,
    }
}

/// The viewport a render context binds for `rect`.
pub fn viewport(rect: Rect2D, flipped: bool) -> (v: Viewport)
    ensures
        v == viewport_spec(rect, flipped),
{
    let (y, height) = if flipped {
        ((rect.height as i64) - (rect.y as i64), -(rect.height as i64))
    } else {
        (rect.y as i64, rect.height as i64)
    };
    Viewport { x: rect.x as i64, y, width: rect.width as i64, height, min_depth: 0, max_depth: 1 }
}

/// Over a rectangle at the top of the target, flipping a viewport reverses its rows: the
/// flipped viewport starts where the plain one ends and ends where it starts.
pub proof fn flipped_viewport_reverses_rows(rect: Rect2D)
    requires
        rect.y == 0,
    ensures
        viewport_spec(rect, true).y == viewport_spec(rect, false).y + viewport_spec(rect, false).height,
        viewport_spec(rect, true).y + viewport_spec(rect, true).height == viewport_spec(rect, false).y,
        viewport_spec(rect, true).x == viewport_spec(rect, false).x,
        viewport_spec(rect, true).width == viewport_spec(rect, false).width,
{
}

/// A rectangle of a blit, all of whose numbers are signed.
#[derive(Debug, Clone, Copy, PartialEq, Eq, Structural)]
pub struct BlitRect {
    pub x: i32,
    pub y: i32,
    pub width: i32,
    pub height: i32,
}

/// A corner of a blit region.
#[derive(Debug, Clone, Copy, PartialEq, Eq, Structural)]
pub struct Offset3D {
    pub x: i32,
    pub y: i32,
    pub z: i32,
}

/// One side of a blit: the aspect of the first layer it covers and its two corners.
#[derive(Debug, Clone, Copy, PartialEq, Eq, Structural)]
pub struct BlitSide {
    pub aspect_mask: u32,
    pub layer_count: u32,
    pub start: Offset3D,
    pub end: Offset3D,
}

/// The region of an image blit.
#[derive(Debug, Clone, Copy, PartialEq, Eq, Structural)]
pub struct ImageBlit {
    pub src: BlitSide,
    pub dst: BlitSide,
}

/// A side of a blit over `rect`: one layer, from the rectangle's offset at depth zero
/// to the corner given by its width and height at depth one.
pub open spec fn blit_side(aspect_mask: u32, rect: BlitRect) -> BlitSide {
    BlitSide {
        aspect_mask,
        layer_count: 1,
        start: Offset3D { x: rect.x, y: rect.y, z: 0 },
        end: Offset3D { x: rect.width, y: rect.height, z: 1 },
    }
}

/// The region a render context blits from `src_rect` to `dst_rect`.
pub fn blit_region(src_aspect_mask: u32, src_rect: BlitRect, dst_aspect_mask: u32, dst_rect: BlitRect) -> (region: ImageBlit)
    ensures
        region == (ImageBlit { src: blit_side(src_aspect_mask, src_rect), dst: blit_side(dst_aspect_mask, dst_rect) }),
{
    ImageBlit {
        src: BlitSide {
            aspect_mask: src_aspect_mask,
            layer_count: 1,
            start: Offset3D { x: src_rect.x, y: src_rect.y, z: 0 },
            end: Offset3D { x: src_rect.width, y: src_rect.height, z: 1 },
        },
        dst: BlitSide {
            aspect_mask: dst_aspect_mask,
            layer_count: 1,
            start: Offset3D { x: dst_rect.x, y: dst_rect.y, z: 0 },
            end: Offset3D { x: dst_rect.width, y: dst_rect.height, z: 1 },
        },
    }
}

} // verus!
