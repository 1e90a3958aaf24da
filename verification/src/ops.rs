//! The operations of a two-dimensional drawing surface, one variant for each
//! call that a surface takes.

use crate::color::Color;
use vstd::prelude::*;

verus! {

/// Thousandths in one pixel: the unit of every length and coordinate.
pub const MILLI: i64 = 1000;

/// The bound on the coordinate of a point: far outside any surface, and small
/// enough that sums of a few lengths stay exact.
pub const REACH: i64 = 1_000_000_000_000_000;

/// One call on a drawing surface. Lengths and coordinates are in thousandths
/// of a pixel.
#[derive(Clone, Copy, Debug, PartialEq, Eq, Structural)]
pub enum CanvasOp {
    /// Writes the pixel buffer of the scene over the whole surface.
    PutImageData,
    /// Pushes the drawing state.
    Save,
    /// Pops the drawing state.
    Restore,
    /// Sets the opacity of what is drawn next to `numerator / denominator`.
    SetGlobalAlpha { numerator: u32, denominator: u32 },
    /// Draws the rectangle `s` of the surface itself into its rectangle `d`.
    DrawImage { sx: i64, sy: i64, sw: i64, sh: i64, dx: i64, dy: i64, dw: i64, dh: i64 },
    /// Sets the colour of the glow.
    SetShadowColor { color: Color },
    /// Sets the blur radius of the glow.
    SetShadowBlur { blur: i64 },
    /// Fills with a plain colour from now on.
    SetFillColor { color: Color },
    /// Starts a radial gradient between two circles.
    CreateRadialGradient { x0: i64, y0: i64, r0: i64, x1: i64, y1: i64, r1: i64 },
    /// Adds a stop to the gradient last started; `offset` is in millionths of
    /// the way from the first circle to the second.
    AddColorStop { offset: u32, color: Color },
    /// Fills with the gradient last started from now on.
    SetFillGradient,
    /// Sets the colour of strokes.
    SetStrokeColor { color: Color },
    /// Sets the width of strokes.
    SetLineWidth { width: i64 },
    /// Fills a rectangle.
    FillRect { x: i64, y: i64, width: i64, height: i64 },
    /// Starts a new path.
    BeginPath,
    /// Moves the pen.
    MoveTo { x: i64, y: i64 },
    /// Adds a straight segment to the path.
    LineTo { x: i64, y: i64 },
    /// Adds a quadratic curve to the path, bent towards `(cx, cy)`.
    QuadraticCurveTo { cx: i64, cy: i64, x: i64, y: i64 },
    /// Joins the end of the path to its start.
    ClosePath,
    /// Fills the path.
    Fill,
    /// Strokes the path.
    Stroke,
}

impl CanvasOp {
    /// Whether the operation puts paint on the surface under the glow then in
    /// effect.
    pub open spec fn paints(self) -> bool {
        self is FillRect || self is Fill || self is Stroke || self is DrawImage
    }
}

} // verus!
