//! Offsets, extents and rectangles.

use vstd::prelude::*;

verus! {

/// A two-dimensional offset.
#[derive(Clone, Copy, Debug, PartialEq, Eq)]
pub struct Offset2D<T> {
    /// The horizontal coordinate.
    pub x: T,
    /// The vertical coordinate.
    pub y: T,
}

impl<T> Offset2D<T> {
    /// The offset `(x, y)`.
    pub fn new(x: T, y: T) -> (r: Self)
        ensures r.x == x, r.y == y,
    {
        Offset2D { x, y }
    }
}

/// A two-dimensional size.
#[derive(Clone, Copy, Debug, PartialEq, Eq)]
pub struct Extent2D<T> {
    /// The width.
    pub w: T,
    /// The height.
    pub h: T,
}

impl<T> Extent2D<T> {
    /// The extent `w` by `h`.
    pub fn new(w: T, h: T) -> (r: Self)
        ensures r.w == w, r.h == h,
    {
        Extent2D { w, h }
    }
}

/// A rectangle: an offset and an extent.
#[derive(Clone, Copy, Debug, PartialEq, Eq)]
pub struct Rect2D<T, U = T> {
    /// The top-left corner.
    pub offset: Offset2D<T>,
    /// The size.
    pub extent: Extent2D<U>,
}

impl<T, U> Rect2D<T, U> {
    /// The rectangle at `(x, y)` of `w` by `h`.
    pub fn new(x: T, y: T, w: U, h: U) -> (r: Self)
        ensures r.offset.x == x, r.offset.y == y, r.extent.w == w, r.extent.h == h,
    {
        Rect2D { offset: Offset2D::new(x, y), extent: Extent2D::new(w, h) }
    }

    /// The rectangle with the given offset and extent.
    pub fn from_raw(offset: Offset2D<T>, extent: Extent2D<U>) -> (r: Self)
        ensures r.offset == offset, r.extent == extent,
    {
        Rect2D { offset, extent }
    }

    /// The horizontal coordinate of the corner.
    pub fn x(&self) -> (r: T) where T: Copy
        ensures r == self.offset.x,
    {
        self.offset.x
    }

    /// The vertical coordinate of the corner.
    pub fn y(&self) -> (r: T) where T: Copy
        ensures r == self.offset.y,
    {
        self.offset.y
    }

    /// The width.
    pub fn w(&self) -> (r: U) where U: Copy
        ensures r == self.extent.w,
    {
        self.extent.w
    }

    /// The height.
    pub fn h(&self) -> (r: U) where U: Copy
        ensures r == self.extent.h,
    {
        self.extent.h
    }
}

} // verus!
