//! Integer positions, sizes and rectangles on a pixel grid, and the trait
//! through which a panel computes where its parts go.

use vstd::prelude::*;
use vstd::std_specs::ops::AddSpecImpl;

verus! {

/// A point on the pixel grid: `x` grows to the right, `y` grows downwards.
#[derive(Copy, Clone, Debug, PartialEq, Eq, Structural)]
pub struct Position(pub i32, pub i32);

/// The extent of a rectangle: width, then height.
#[derive(Copy, Clone, Debug, PartialEq, Eq, Structural)]
pub struct Size(pub i32, pub i32);

/// A rectangle given by its top left corner and its extent.
#[derive(Copy, Clone, Debug, PartialEq, Eq, Structural)]
pub struct Rect(pub Position, pub Size);

/// A width and height of labels up to which a whole window can be laid out
/// for certain: the largest power of two of which that holds.
pub const MAX_EXTENT: i32 = 0x1000_0000;

/// Whether `v` can be stored in an `i32`.
pub open spec fn fits_i32(v: int) -> bool {
    i32::MIN <= v <= i32::MAX
}

impl Position {
    /// The horizontal coordinate.
    pub fn x(self) -> (r: i32)
        ensures
            r == self.0,
    {
        self.0
    }

    /// The vertical coordinate.
    pub fn y(self) -> (r: i32)
        ensures
            r == self.1,
    {
        self.1
    }

    /// Whether both coordinates of `self` moved by `(dx, dy)` are still on the grid.
    pub open spec fn can_move(self, dx: int, dy: int) -> bool {
        fits_i32(self.0 + dx) && fits_i32(self.1 + dy)
    }

    /// `self` moved by `(dx, dy)`.
    pub open spec fn moved(self, dx: int, dy: int) -> Position
        recommends
            self.can_move(dx, dy),
    {
        Position((self.0 + dx) as i32, (self.1 + dy) as i32)
    }
}

impl std::ops::Add<Position> for Position {
    type Output = Position;

    fn add(self, rhs: Position) -> (r: Position) {
        Position(self.0 + rhs.0, self.1 + rhs.1)
    }
}

impl AddSpecImpl<Position> for Position {
    open spec fn obeys_add_spec() -> bool {
        true
    }

    open spec fn add_req(self, rhs: Position) -> bool {
        self.can_move(rhs.0 as int, rhs.1 as int)
    }

    open spec fn add_spec(self, rhs: Position) -> Position {
        self.moved(rhs.0 as int, rhs.1 as int)
    }
}

impl std::ops::Add<Size> for Position {
    type Output = Position;

    fn add(self, rhs: Size) -> (r: Position) {
        Position(self.0 + rhs.0, self.1 + rhs.1)
    }
}

impl AddSpecImpl<Size> for Position {
    open spec fn obeys_add_spec() -> bool {
        true
    }

    open spec fn add_req(self, rhs: Size) -> bool {
        self.can_move(rhs.0 as int, rhs.1 as int)
    }

    open spec fn add_spec(self, rhs: Size) -> Position {
        self.moved(rhs.0 as int, rhs.1 as int)
    }
}

impl Size {
    /// The width.
    pub fn w(self) -> (r: i32)
        ensures
            r == self.0,
    {
        self.0
    }

    /// The height.
    pub fn h(self) -> (r: i32)
        ensures
            r == self.1,
    {
        self.1
    }

    /// Whether `self` can be the extent of something measured on screen:
    /// neither part is negative.
    pub open spec fn measured(self) -> bool {
        0 <= self.0 && 0 <= self.1
    }

    /// Whether neither part of `self` is negative or beyond `MAX_EXTENT`.
    pub open spec fn bounded(self) -> bool {
        0 <= self.0 <= MAX_EXTENT && 0 <= self.1 <= MAX_EXTENT
    }

    /// Whether `self` grown by `(dw, dh)` can still be stored.
    pub open spec fn can_grow(self, dw: int, dh: int) -> bool {
        fits_i32(self.0 + dw) && fits_i32(self.1 + dh)
    }

    /// `self` grown by `(dw, dh)`.
    pub open spec fn grown(self, dw: int, dh: int) -> Size
        recommends
            self.can_grow(dw, dh),
    {
        Size((self.0 + dw) as i32, (self.1 + dh) as i32)
    }
}

impl std::ops::Add<Size> for Size {
    type Output = Size;

    fn add(self, rhs: Size) -> (r: Size) {
        Size(self.0 + rhs.0, self.1 + rhs.1)
    }
}

impl AddSpecImpl<Size> for Size {
    open spec fn obeys_add_spec() -> bool {
        true
    }

    open spec fn add_req(self, rhs: Size) -> bool {
        self.can_grow(rhs.0 as int, rhs.1 as int)
    }

    open spec fn add_spec(self, rhs: Size) -> Size {
        self.grown(rhs.0 as int, rhs.1 as int)
    }
}

impl Rect {
    /// The top left corner.
    pub fn pos(self) -> (r: Position)
        ensures
            r == self.0,
    {
        self.0
    }

    /// The extent.
    pub fn size(self) -> (r: Size)
        ensures
            r == self.1,
    {
        self.1
    }

    /// The horizontal coordinate of the left edge.
    pub fn x(self) -> (r: i32)
        ensures
            r == self.0.0,
    {
        self.pos().x()
    }

    /// The vertical coordinate of the top edge.
    pub fn y(self) -> (r: i32)
        ensures
            r == self.0.1,
    {
        self.pos().y()
    }

    /// The width.
    pub fn w(self) -> (r: i32)
        ensures
            r == self.1.0,
    {
        self.size().w()
    }

    /// The height.
    pub fn h(self) -> (r: i32)
        ensures
            r == self.1.1,
    {
        self.size().h()
    }

    /// The same rectangle moved by `pos`, taken as an offset; the extent is kept.
    pub fn with_added_pos(self, pos: Position) -> (r: Rect)
        requires
            self.0.can_move(pos.0 as int, pos.1 as int),
        ensures
            r.0 == self.0.moved(pos.0 as int, pos.1 as int),
            r.1 == self.1,
    {
        Rect(self.0 + pos, self.1)
    }

    /// The same rectangle grown by `size`; the corner is kept.
    pub fn with_added_size(self, size: Size) -> (r: Rect)
        requires
            self.1.can_grow(size.0 as int, size.1 as int),
        ensures
            r.0 == self.0,
            r.1 == self.1.grown(size.0 as int, size.1 as int),
    {
        Rect(self.0, self.1 + size)
    }

    /// The horizontal coordinate that lies `padding` beyond the right edge.
    pub open spec fn right_of(self, padding: int) -> int {
        self.0.0 + self.1.0 + padding
    }

    /// The vertical coordinate that lies `padding` beyond the bottom edge.
    pub open spec fn bottom_of(self, padding: int) -> int {
        self.0.1 + self.1.1 + padding
    }

    /// A rectangle of extent `size` on the same line, `gap` to the right of `self`.
    pub open spec fn beside(self, gap: int, size: Size) -> Rect
        recommends
            fits_i32(self.right_of(gap)),
    {
        Rect(Position(self.right_of(gap) as i32, self.0.1), size)
    }

    /// A rectangle of extent `size` in the same column, `gap` below `self`.
    pub open spec fn below(self, gap: int, size: Size) -> Rect
        recommends
            fits_i32(self.bottom_of(gap)),
    {
        Rect(Position(self.0.0, self.bottom_of(gap) as i32), size)
    }

    /// The point on the top edge's line that lies `padding` to the right of the
    /// rectangle: where a neighbour on the same line starts.
    pub fn to_right(self, padding: i32) -> (r: Position)
        requires
            fits_i32(self.right_of(0)),
            fits_i32(self.right_of(padding as int)),
        ensures
            r.0 == self.right_of(padding as int),
            r.1 == self.0.1,
    {
        let x: i32 = self.x() + self.w() + padding;
        Position(x, self.y())
    }

    /// The point on the left edge's line that lies `padding` below the
    /// rectangle: where the next line starts.
    pub fn to_bottom(self, padding: i32) -> (r: Position)
        requires
            fits_i32(self.bottom_of(0)),
            fits_i32(self.bottom_of(padding as int)),
        ensures
            r.0 == self.0.0,
            r.1 == self.bottom_of(padding as int),
    {
        let y: i32 = self.y() + self.h() + padding;
        Position(self.x(), y)
    }
}

impl std::ops::AddAssign<Position> for Position {
    fn add_assign(&mut self, rhs: Position)
        requires
            old(self).can_move(rhs.0 as int, rhs.1 as int),
        ensures
            *final(self) == old(self).moved(rhs.0 as int, rhs.1 as int),
    {
        *self = *self + rhs
    }
}

impl std::ops::AddAssign<Size> for Position {
    fn add_assign(&mut self, rhs: Size)
        requires
            old(self).can_move(rhs.0 as int, rhs.1 as int),
        ensures
            *final(self) == old(self).moved(rhs.0 as int, rhs.1 as int),
    {
        *self = *self + rhs
    }
}

impl std::ops::AddAssign<Size> for Size {
    fn add_assign(&mut self, rhs: Size)
        requires
            old(self).can_grow(rhs.0 as int, rhs.1 as int),
        ensures
            *final(self) == old(self).grown(rhs.0 as int, rhs.1 as int),
    {
        *self = *self + rhs
    }
}

/// A panel that can say where each of its parts goes.
///
/// `Arguments` is what the panel needs to know of its surroundings, `Layout`
/// the set of rectangles it answers with.
pub trait LayoutGen<'a> {
    type Arguments: 'a;

    type Layout;

    /// Whether every coordinate of the layout can be stored.
    spec fn fits(&self, arguments: Self::Arguments) -> bool;

    /// Where the parts go.
    spec fn layout(&self, arguments: Self::Arguments) -> Self::Layout;

    /// Computes the layout.
    fn generate_layout(&self, arguments: Self::Arguments) -> (r: Self::Layout)
        requires
            self.fits(arguments),
        ensures
            r == self.layout(arguments),
    ;
}

} // verus!
