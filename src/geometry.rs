use vstd::prelude::*;

verus! {

/// Width of the panel in its own, unrotated coordinates.
pub const TFT_WIDTH: u16 = 240;

/// Height of the panel in its own, unrotated coordinates.
pub const TFT_HEIGHT: u16 = 320;

/// A point; x grows to the right, y grows downwards.
#[derive(Clone, Copy, Debug, PartialEq, Eq, Structural)]
pub struct Point {
    pub x: i32,
    pub y: i32,
}

impl Point {
    pub fn new(x: i32, y: i32) -> (r: Point)
        ensures
            r == (Point { x, y }),
    {
        Point { x, y }
    }
}

/// A width and a height.
#[derive(Clone, Copy, Debug, PartialEq, Eq, Structural)]
pub struct Size {
    pub width: u32,
    pub height: u32,
}

impl Size {
    pub fn new(width: u32, height: u32) -> (r: Size)
        ensures
            r == (Size { width, height }),
    {
        Size { width, height }
    }
}

/// A rectangle given by two corners, both of them inside it.
#[derive(Clone, Copy, Debug, PartialEq, Eq, Structural)]
pub struct Rectangle {
    pub top_left: Point,
    pub bottom_right: Point,
}

impl Rectangle {
    pub fn new(top_left: Point, bottom_right: Point) -> (r: Rectangle)
        ensures
            r == (Rectangle { top_left, bottom_right }),
    {
        Rectangle { top_left, bottom_right }
    }

    /// Neither corner lies right of or below the other one.
    pub open spec fn is_ordered(self) -> bool {
        self.top_left.x <= self.bottom_right.x && self.top_left.y <= self.bottom_right.y
    }

    /// The number of points inside an ordered rectangle.
    pub open spec fn area(self) -> nat {
        ((self.bottom_right.x - self.top_left.x + 1) * (self.bottom_right.y - self.top_left.y
            + 1)) as nat
    }
}

/// Screen rotation, counter-clockwise.
#[derive(Clone, Copy, Debug, PartialEq, Eq, Structural)]
pub enum Rotation {
    R0,
    R90,
    R180,
    R270,
}

/// The panel's size in its own coordinates.
pub open spec fn native_size() -> Size {
    Size { width: TFT_WIDTH as u32, height: TFT_HEIGHT as u32 }
}

/// The size seen by a caller under `rotation`.
pub open spec fn logical_size(rotation: Rotation) -> Size {
    match rotation {
        Rotation::R0 | Rotation::R180 => native_size(),
        Rotation::R90 | Rotation::R270 => Size { width: TFT_HEIGHT as u32, height: TFT_WIDTH as u32 },
    }
}

/// The rotation that undoes `rotation`.
pub open spec fn inverse(rotation: Rotation) -> Rotation {
    match rotation {
        Rotation::R0 => Rotation::R0,
        Rotation::R90 => Rotation::R270,
        Rotation::R180 => Rotation::R180,
        Rotation::R270 => Rotation::R90,
    }
}

/// Where the logical point `p` lies in a window of size `window`, in the
/// panel's own coordinates. Results are kept to 32 bits, as the point's
/// coordinates are.
pub open spec fn to_native(rotation: Rotation, p: Point, window: Size) -> Point {
    match rotation {
        Rotation::R0 => p,
        Rotation::R90 => Point { x: (window.width - 1 - p.y) as i32, y: p.x },
        Rotation::R180 => Point {
            x: (window.width - 1 - p.x) as i32,
            y: (window.height - 1 - p.y) as i32,
        },
        Rotation::R270 => Point { x: p.y, y: (window.height - 1 - p.x) as i32 },
    }
}

/// `p` lies in the rectangle from the origin of the given size.
pub open spec fn within(p: Point, size: Size) -> bool {
    0 <= p.x < size.width && 0 <= p.y < size.height
}

/// Maps `p` into a window of size `window` in the panel's own coordinates.
pub fn window_point(rotation: Rotation, p: Point, window: Size) -> (r: Point)
    ensures
        r == to_native(rotation, p, window),
{
    match rotation {
        Rotation::R0 => p,
        Rotation::R90 => Point::new(#[verifier::truncate] ((window.width as i64 - 1 - p.y as i64) as i32), p.x),
        Rotation::R180 => Point::new(
            #[verifier::truncate] ((window.width as i64 - 1 - p.x as i64) as i32),
            #[verifier::truncate] ((window.height as i64 - 1 - p.y as i64) as i32),
        ),
        Rotation::R270 => Point::new(p.y, #[verifier::truncate] ((window.height as i64 - 1 - p.x as i64) as i32)),
    }
}

/// Under every rotation a point of the logical screen lands on the panel,
/// and the inverse rotation, mapped against the logical size, brings it
/// back.
pub proof fn lemma_to_native_round_trip(rotation: Rotation, p: Point)
    requires
        within(p, logical_size(rotation)),
    ensures
        within(to_native(rotation, p, native_size()), native_size()),
        to_native(inverse(rotation), to_native(rotation, p, native_size()), logical_size(rotation))
            == p,
{
}

/// Every point of the panel is reached from exactly one logical point:
/// the one that the inverse rotation gives.
pub proof fn lemma_to_native_onto(rotation: Rotation, q: Point)
    requires
        within(q, native_size()),
    ensures
        within(to_native(inverse(rotation), q, logical_size(rotation)), logical_size(rotation)),
        to_native(rotation, to_native(inverse(rotation), q, logical_size(rotation)), native_size())
            == q,
        forall|p: Point|
            within(p, logical_size(rotation)) && to_native(rotation, p, native_size()) == q
                ==> p == to_native(inverse(rotation), q, logical_size(rotation)),
{
    assert forall|p: Point|
        within(p, logical_size(rotation)) && to_native(rotation, p, native_size()) == q implies p
        == to_native(inverse(rotation), q, logical_size(rotation)) by {
        lemma_to_native_round_trip(rotation, p);
    }
}

/// A rotation's inverse undoes it, and a half turn is its own inverse.
pub proof fn lemma_inverse_rotation(rotation: Rotation)
    ensures
        inverse(inverse(rotation)) == rotation,
        inverse(Rotation::R180) == Rotation::R180,
{
}

} // verus!
