use vstd::prelude::*;

verus! {

/// A solid fill colour handed to the drawing surface.
#[derive(Clone, Copy, PartialEq, Eq, Structural, Debug)]
pub enum FillColor {
    /// The colour of both paddles.
    PaddleBlue,
    /// The colour of the ball.
    BallRed,
}

/// One call to the 2D drawing surface. A tick of the game produces the
/// sequence of these calls for its frame; the host adapter executes them in
/// order against the real surface.
#[derive(Clone, Copy, PartialEq, Eq, Structural, Debug)]
pub enum DrawCmd {
    /// Clear the rectangle with top-left corner (x, y) and the given size.
    ClearRect { x: i64, y: i64, width: i64, height: i64 },
    /// Set the current fill colour.
    SetFillStyle { color: FillColor },
    /// Fill the rectangle with top-left corner (x, y) and the given size.
    FillRect { x: i64, y: i64, width: i64, height: i64 },
    /// Begin a new path.
    BeginPath,
    /// Add a full circle of the given radius around (x, y) to the path.
    Arc { x: i64, y: i64, radius: i64 },
    /// Fill the current path.
    Fill,
}

} // verus!
