//! Placement of the camera-orientation gizmo in the bottom-right corner.
use vstd::prelude::*;

verus! {

pub const GIZMO_SIZE_PX: u32 = 112;

pub const GIZMO_MARGIN_PX: u32 = 24;

/// The square viewport of the gizmo: top-left corner and side length, in pixels.
#[derive(Clone, Copy, Debug, PartialEq, Eq, Structural)]
pub struct GizmoRect {
    pub x: u32,
    pub y: u32,
    pub size: u32,
}

pub open spec fn min_u32(a: u32, b: u32) -> u32 {
    if a <= b {
        a
    } else {
        b
    }
}

pub open spec fn sat_sub(a: int, b: int) -> int {
    if a >= b {
        a - b
    } else {
        0
    }
}

/// The gizmo viewport for a target of `width` x `height`: at most
/// `GIZMO_SIZE_PX` square, a margin of at most a quarter of its side from the
/// bottom-right corner; none for an empty target.
pub fn gizmo_rect(width: u32, height: u32) -> (r: Option<GizmoRect>)
    ensures
        (width == 0 || height == 0) <==> r is None,
        r matches Some(g) ==> ({
            let size = min_u32(GIZMO_SIZE_PX, min_u32(width, height));
            let margin = min_u32(GIZMO_MARGIN_PX, size / 4);
            &&& g.size == size
            &&& g.x == sat_sub(width as int, size + margin)
            &&& g.y == sat_sub(height as int, size + margin)
        }),
        r matches Some(g) ==> (g.size > 0 && g.x + g.size <= width && g.y + g.size <= height),
{
    let min_side = if width <= height { width } else { height };
    if min_side == 0 {
        return None;
    }
    let size = if GIZMO_SIZE_PX <= min_side { GIZMO_SIZE_PX } else { min_side };
    let quarter = size / 4;
    let margin = if GIZMO_MARGIN_PX <= quarter { GIZMO_MARGIN_PX } else { quarter };
    let x = width.saturating_sub(size + margin);
    let y = height.saturating_sub(size + margin);
    Some(GizmoRect { x, y, size })
}

} // verus!
