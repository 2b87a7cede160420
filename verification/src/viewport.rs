//! The viewport rectangle and its coordinate-origin flip.
//!
//! A `Viewport` is a plain pixel rectangle. The GUI layer computes it in
//! UI space (origin at the top-left corner of the window); OpenGL expects
//! the origin at the bottom-left corner, so the rectangle is flipped with
//! respect to the window's pixel height before it is handed to the
//! renderer.

use vstd::prelude::*;

verus! {

/// A pixel rectangle: the region of the window's back buffer into which
/// 3D content is rendered.
///
/// Width and height are meant to be non-negative; the constructor does
/// not enforce this, since the values come from GUI layout, which is
/// trusted.
#[derive(Clone, Copy, PartialEq, Eq, Structural, Debug)]
pub struct Viewport {
    pub x: i32,
    pub y: i32,
    pub width: i32,
    pub height: i32,
}

impl View for Viewport {
    type V = (int, int, int, int);

    open spec fn view(&self) -> (int, int, int, int) {
        (self.x as int, self.y as int, self.width as int, self.height as int)
    }
}

/// The coordinate-origin flip on an abstract rectangle `(x, y, w, h)`:
/// given the window pixel height `h_win`, the rectangle seen from the
/// opposite horizontal edge is `(x, h_win - y - h, w, h)`.
pub open spec fn flip_rect(r: (int, int, int, int), h_win: int) -> (int, int, int, int) {
    (r.0, h_win - r.1 - r.3, r.2, r.3)
}

impl Viewport {
    pub fn new(x: i32, y: i32, width: i32, height: i32) -> (v: Viewport)
        ensures
            v.x == x,
            v.y == y,
            v.width == width,
            v.height == height,
    {
        Viewport { x, y, width, height }
    }

    /// The same rectangle expressed with the origin at the opposite
    /// horizontal edge of a window of pixel height `window_height`
    /// (UI space has a top-left origin, OpenGL a bottom-left one).
    pub fn flipped(&self, window_height: i32) -> (v: Viewport)
        requires
            i32::MIN <= window_height - self.y - self.height <= i32::MAX,
        ensures
            v@ == flip_rect(self@, window_height as int),
    {
        let flipped_y: i64 = window_height as i64 - self.y as i64 - self.height as i64;
        Viewport {
            x: self.x,
            y: flipped_y as i32,
            width: self.width,
            height: self.height,
        }
    }
}

/// Flipping twice with the same window height returns the original
/// rectangle: the flip is an involution as long as the height is held
/// constant.
pub proof fn lemma_flip_involution(r: (int, int, int, int), h_win: int)
    ensures
        flip_rect(flip_rect(r, h_win), h_win) == r,
{
}

/// Flipping with one window height and flipping back with another returns
/// the original rectangle exactly when the two heights are equal: the
/// involution depends on the height being held constant.
pub proof fn lemma_flip_height_dependence(r: (int, int, int, int), h1: int, h2: int)
    ensures
        flip_rect(flip_rect(r, h1), h2) == r <==> h1 == h2,
{
}

} // verus!
