//! Pointer positions and the selection rectangle derived from a drag.

use vstd::prelude::*;

verus! {

/// A pointer location in whole screen pixels, origin at the top-left corner.
#[derive(Clone, Copy, Debug, PartialEq, Eq, Structural)]
pub struct PointerPosition {
    pub x: u32,
    pub y: u32,
}

/// An axis-aligned screen region: `x`/`y` is its top-left corner and
/// `width`/`height` its extent.  Derived from the two endpoints of a drag,
/// the corner is the component-wise minimum and the extent the
/// component-wise absolute difference, so both are always non-negative and
/// a degenerate drag yields a zero-sized rectangle.
#[derive(Clone, Copy, Debug, PartialEq, Eq, Structural)]
pub struct SelectionRectangle {
    pub x: u32,
    pub y: u32,
    pub width: u32,
    pub height: u32,
}

impl SelectionRectangle {
    /// The far corner still fits in the coordinate type; rectangles derived
    /// from two pointer positions always satisfy this.
    pub open spec fn wf(self) -> bool {
        &&& self.x + self.width <= u32::MAX
        &&& self.y + self.height <= u32::MAX
    }

    /// The rectangle spanned by two drag endpoints, independent of the order
    /// in which they were recorded.
    pub open spec fn spec_from_points(p1: PointerPosition, p2: PointerPosition) -> SelectionRectangle {
        SelectionRectangle {
            x: if p1.x <= p2.x { p1.x } else { p2.x },
            y: if p1.y <= p2.y { p1.y } else { p2.y },
            width: (if p1.x <= p2.x { p2.x - p1.x } else { p1.x - p2.x }) as u32,
            height: (if p1.y <= p2.y { p2.y - p1.y } else { p1.y - p2.y }) as u32,
        }
    }

    /// Builds the selection spanned by the start and end of a drag: the
    /// origin is the component-wise minimum of the two endpoints and the
    /// size their component-wise absolute difference.
    pub fn from_points(p1: PointerPosition, p2: PointerPosition) -> (r: SelectionRectangle)
        ensures
            r == Self::spec_from_points(p1, p2),
            r.x == if p1.x <= p2.x { p1.x } else { p2.x },
            r.y == if p1.y <= p2.y { p1.y } else { p2.y },
            r.width == if p1.x <= p2.x { p2.x - p1.x } else { p1.x - p2.x },
            r.height == if p1.y <= p2.y { p2.y - p1.y } else { p1.y - p2.y },
            r.wf(),
    {
        let x = if p1.x <= p2.x { p1.x } else { p2.x };
        let y = if p1.y <= p2.y { p1.y } else { p2.y };
        let width = if p1.x <= p2.x { p2.x - p1.x } else { p1.x - p2.x };
        let height = if p1.y <= p2.y { p2.y - p1.y } else { p1.y - p2.y };
        SelectionRectangle { x, y, width, height }
    }
}

/// The rectangle spanned by two pointer positions does not depend on which
/// of them was the press point and which the release point.
pub proof fn lemma_from_points_order_irrelevant(p1: PointerPosition, p2: PointerPosition)
    ensures
        SelectionRectangle::spec_from_points(p1, p2) == SelectionRectangle::spec_from_points(p2, p1),
{
}

} // verus!
