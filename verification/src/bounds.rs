//! A point against an axis-aligned rectangle: which edges it lies beyond, and
//! what that asks of a velocity.

use vstd::prelude::*;

verus! {

/// Which edges of a rectangle a point lies strictly beyond.
///
/// `left` and `bottom` are the edges of least x and least y, `right` and `top`
/// those of greatest x and greatest y. In a rectangle whose least edge lies
/// above its greatest, a point can be beyond both edges of one axis.
#[derive(Clone, Copy, Debug, PartialEq, Eq, Structural)]
pub struct Crossing {
    pub left: bool,
    pub bottom: bool,
    pub right: bool,
    pub top: bool,
}

/// What a crossed edge does to one component of a velocity.
#[derive(Clone, Copy, Debug, PartialEq, Eq, Structural)]
pub enum Bounce {
    /// The component stays as it is.
    Keep,
    /// Half its magnitude, directed up the axis.
    HalfUp,
    /// Half its magnitude, directed down the axis.
    HalfDown,
    /// A quarter of its magnitude, directed down the axis: the least edge
    /// halved it and turned it up, then the greatest halved it again and
    /// turned it down.
    QuarterDown,
}

/// The bounces that one bounds check asks for, one for each axis.
#[derive(Clone, Copy, Debug, PartialEq, Eq, Structural)]
pub struct Deflection {
    pub x: Bounce,
    pub y: Bounce,
}

/// The bounce of one axis, from whether the point is below the least edge of
/// that axis and whether it is above the greatest.
pub open spec fn bounce(below: bool, above: bool) -> Bounce {
    if below && above {
        Bounce::QuarterDown
    } else if below {
        Bounce::HalfUp
    } else if above {
        Bounce::HalfDown
    } else {
        Bounce::Keep
    }
}

impl Crossing {
    /// Whether the point is outside the rectangle: beyond any of the four
    /// edges.
    pub open spec fn is_outside(self) -> bool {
        self.left || self.bottom || self.right || self.top
    }

    /// Whether the point is outside the rectangle.
    pub fn outside(&self) -> (out: bool)
        ensures
            out == self.is_outside(),
    {
        self.left || self.bottom || self.right || self.top
    }
}

/// Decides how a velocity is turned back into the rectangle: each axis is
/// judged by its own two edges, and a crossed edge sends the component back
/// inside at half its magnitude.
pub fn keep_in_bounds(crossing: Crossing) -> (d: Deflection)
    ensures
        d.x == bounce(crossing.left, crossing.right),
        d.y == bounce(crossing.bottom, crossing.top),
{
    let mut x = Bounce::Keep;
    let mut y = Bounce::Keep;
    if crossing.left {
        x = Bounce::HalfUp;
    }
    if crossing.bottom {
        y = Bounce::HalfUp;
    }
    if crossing.right {
        x = match x {
            Bounce::Keep => Bounce::HalfDown,
            _ => Bounce::QuarterDown,
        };
    }
    if crossing.top {
        y = match y {
            Bounce::Keep => Bounce::HalfDown,
            _ => Bounce::QuarterDown,
        };
    }
    Deflection { x, y }
}

/// A bounds check touches only the axis whose edge was crossed: the bounce of
/// an axis is the same whatever holds of the other axis, and an axis with
/// neither edge crossed keeps its component.
pub proof fn lemma_other_axis_untouched(a: Crossing, b: Crossing)
    ensures
        a.left == b.left && a.right == b.right ==> bounce(a.left, a.right) == bounce(
            b.left,
            b.right,
        ),
        a.bottom == b.bottom && a.top == b.top ==> bounce(a.bottom, a.top) == bounce(
            b.bottom,
            b.top,
        ),
        !a.left && !a.right <==> bounce(a.left, a.right) == Bounce::Keep,
        !a.bottom && !a.top <==> bounce(a.bottom, a.top) == Bounce::Keep,
{
}

} // verus!
