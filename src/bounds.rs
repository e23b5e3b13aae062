use vstd::prelude::*;

use crate::error::AppError;

verus! {

/// A rectangle of the screen, in pixels: `width` columns to the right of
/// `x` and `height` rows below `y`. Origins may be negative on setups where
/// a monitor lies left of or above the primary one. The same type describes
/// a requested region and the area of a display.
#[derive(Clone, Copy, Debug, PartialEq, Eq, Structural)]
pub struct CaptureBounds {
    pub x: i32,
    pub y: i32,
    pub width: u32,
    pub height: u32,
}

impl CaptureBounds {
    pub open spec fn left(self) -> int {
        self.x as int
    }

    pub open spec fn right(self) -> int {
        self.x + self.width
    }

    pub open spec fn top(self) -> int {
        self.y as int
    }

    pub open spec fn bottom(self) -> int {
        self.y + self.height
    }

    /// Neither side is zero.
    pub open spec fn is_nonempty(self) -> bool {
        self.width > 0 && self.height > 0
    }

    /// Every pixel of `inner` is a pixel of `self`.
    pub open spec fn contains(self, inner: CaptureBounds) -> bool {
        &&& self.left() <= inner.left()
        &&& inner.right() <= self.right()
        &&& self.top() <= inner.top()
        &&& inner.bottom() <= self.bottom()
    }

    /// The two rectangles share at least one pixel.
    pub open spec fn overlaps(self, other: CaptureBounds) -> bool {
        &&& max_int(self.left(), other.left()) < min_int(self.right(), other.right())
        &&& max_int(self.top(), other.top()) < min_int(self.bottom(), other.bottom())
    }

    pub fn new(x: i32, y: i32, width: u32, height: u32) -> (r: CaptureBounds)
        ensures
            r == (CaptureBounds { x, y, width, height }),
    {
        CaptureBounds { x, y, width, height }
    }
}

pub open spec fn max_int(a: int, b: int) -> int {
    if a >= b { a } else { b }
}

pub open spec fn min_int(a: int, b: int) -> int {
    if a <= b { a } else { b }
}

/// `c` is the rectangle of the pixels common to `a` and `b`.
pub open spec fn is_intersection(c: CaptureBounds, a: CaptureBounds, b: CaptureBounds) -> bool {
    &&& c.left() == max_int(a.left(), b.left())
    &&& c.right() == min_int(a.right(), b.right())
    &&& c.top() == max_int(a.top(), b.top())
    &&& c.bottom() == min_int(a.bottom(), b.bottom())
}

/// Some display holds the whole of the non-empty region `b`.
pub open spec fn inside_some_display(b: CaptureBounds, displays: Seq<CaptureBounds>) -> bool {
    b.is_nonempty() && exists|i: int| 0 <= i < displays.len() && (#[trigger] displays[i]).contains(b)
}

/// Some display shares a pixel with `b`.
pub open spec fn touches_some_display(b: CaptureBounds, displays: Seq<CaptureBounds>) -> bool {
    exists|i: int| 0 <= i < displays.len() && b.overlaps(#[trigger] displays[i])
}

/// Display `i` is the first, in the order given, that shares a pixel with `b`.
pub open spec fn is_first_touched(b: CaptureBounds, displays: Seq<CaptureBounds>, i: int) -> bool {
    &&& 0 <= i < displays.len()
    &&& b.overlaps(displays[i])
    &&& forall|j: int| 0 <= j < i ==> !b.overlaps(#[trigger] displays[j])
}

/// The pixels that `b` and `d` have in common, if they have any.
pub fn intersect(b: CaptureBounds, d: CaptureBounds) -> (r: Option<CaptureBounds>)
    ensures
        r is Some <==> b.overlaps(d),
        r matches Some(c) ==> is_intersection(c, b, d),
{
    let left: i64 = if b.x >= d.x { b.x as i64 } else { d.x as i64 };
    let top: i64 = if b.y >= d.y { b.y as i64 } else { d.y as i64 };
    let b_right: i64 = b.x as i64 + b.width as i64;
    let d_right: i64 = d.x as i64 + d.width as i64;
    let b_bottom: i64 = b.y as i64 + b.height as i64;
    let d_bottom: i64 = d.y as i64 + d.height as i64;
    let right: i64 = if b_right <= d_right { b_right } else { d_right };
    let bottom: i64 = if b_bottom <= d_bottom { b_bottom } else { d_bottom };
    if left < right && top < bottom {
        Some(CaptureBounds {
            x: left as i32,
            y: top as i32,
            width: (right - left) as u32,
            height: (bottom - top) as u32,
        })
    } else {
        None
    }
}

/// A region that leaves a display but still shows some of it is clamped to
/// the part it shows, which lies strictly within the region.
pub proof fn lemma_clamp_is_strict_subregion(b: CaptureBounds, d: CaptureBounds, c: CaptureBounds)
    requires
        b.overlaps(d),
        !d.contains(b),
        is_intersection(c, b, d),
    ensures
        b.contains(c),
        d.contains(c),
        c != b,
        c.is_nonempty(),
{
}

/// A non-empty region inside a display is its own intersection with it.
pub proof fn lemma_inside_is_unchanged(b: CaptureBounds, d: CaptureBounds, c: CaptureBounds)
    requires
        b.is_nonempty(),
        d.contains(b),
        is_intersection(c, b, d),
    ensures
        b.overlaps(d),
        c == b,
{
}

/// The region that a capture of `bounds` takes, given the areas of the
/// displays. A non-empty region inside one display is taken as it is. A
/// region that shows part of some display is clamped to the part that the
/// first such display shows. A region that shows nothing of any display is
/// refused.
pub fn clamp_to_displays(bounds: CaptureBounds, displays: &Vec<CaptureBounds>) -> (r: Result<CaptureBounds, AppError>)
    ensures
        r is Ok <==> touches_some_display(bounds, displays@),
        r matches Err(e) ==> e.is_invalid_bounds(),
        inside_some_display(bounds, displays@) ==> r == Ok::<CaptureBounds, AppError>(bounds),
        !inside_some_display(bounds, displays@) ==> (r matches Ok(c) ==> exists|i: int|
            is_first_touched(bounds, displays@, i) && is_intersection(c, bounds, displays@[i])),
        !inside_some_display(bounds, displays@) ==> (r matches Ok(c) ==> bounds.contains(c) && c != bounds),
{
    if bounds.width > 0 && bounds.height > 0 {
        let mut i: usize = 0;
        while i < displays.len()
            invariant
                i <= displays@.len(),
                bounds.is_nonempty(),
                forall|j: int| 0 <= j < i ==> !(#[trigger] displays@[j]).contains(bounds),
            decreases displays@.len() - i,
        {
            let d = displays[i];
            if d.x <= bounds.x && bounds.x as i64 + bounds.width as i64 <= d.x as i64 + d.width as i64
                && d.y <= bounds.y && bounds.y as i64 + bounds.height as i64 <= d.y as i64
                + d.height as i64 {
                proof {
                    lemma_inside_is_unchanged(bounds, d, bounds);
                }
                return Ok(bounds);
            }
            i = i + 1;
        }
    }
    assert(!inside_some_display(bounds, displays@));
    let mut k: usize = 0;
    while k < displays.len()
        invariant
            k <= displays@.len(),
            !inside_some_display(bounds, displays@),
            forall|j: int| 0 <= j < k ==> !bounds.overlaps(#[trigger] displays@[j]),
        decreases displays@.len() - k,
    {
        match intersect(bounds, displays[k]) {
            Some(c) => {
                proof {
                    assert(is_first_touched(bounds, displays@, k as int));
                    if displays@[k as int].contains(bounds) {
                        assert(bounds.is_nonempty());
                    } else {
                        lemma_clamp_is_strict_subregion(bounds, displays@[k as int], c);
                    }
                }
                return Ok(c);
            },
            None => {},
        }
        k = k + 1;
    }
    Err(AppError::invalid_bounds())
}

} // verus!
