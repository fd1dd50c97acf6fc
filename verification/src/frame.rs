//! The rectangle that addresses a region of an image.

use vstd::prelude::*;

verus! {

/// What a [`Frame`] stands for: an origin and an extent, in pixels. None of
/// the four is constrained.
pub ghost struct Rect {
    pub x_start: int,
    pub y_start: int,
    pub width: int,
    pub height: int,
}

/// A rectangle within a larger image, fixed once it is made. Whether it is a
/// sensible rectangle is for the one who makes it to decide.
pub struct Frame {
    x_start: i32,
    y_start: i32,
    width: i32,
    height: i32,
}

impl View for Frame {
    type V = Rect;

    closed spec fn view(&self) -> Rect {
        Rect {
            x_start: self.x_start as int,
            y_start: self.y_start as int,
            width: self.width as int,
            height: self.height as int,
        }
    }
}

impl Frame {
    /// A frame with the origin and extent as given.
    pub fn new(x_start: i32, y_start: i32, width: i32, height: i32) -> (f: Frame)
        ensures
            f@ == (Rect {
                x_start: x_start as int,
                y_start: y_start as int,
                width: width as int,
                height: height as int,
            }),
    {
        Frame { x_start, y_start, width, height }
    }

    /// The horizontal origin.
    pub fn get_x_start(&self) -> (x: i32)
        ensures
            x == self@.x_start,
    {
        self.x_start
    }

    /// The vertical origin.
    pub fn get_y_start(&self) -> (y: i32)
        ensures
            y == self@.y_start,
    {
        self.y_start
    }

    /// The horizontal extent.
    pub fn get_width(&self) -> (w: i32)
        ensures
            w == self@.width,
    {
        self.width
    }

    /// The vertical extent.
    pub fn get_height(&self) -> (h: i32)
        ensures
            h == self@.height,
    {
        self.height
    }
}

} // verus!
