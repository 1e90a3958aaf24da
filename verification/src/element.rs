//! The elements of a scene, and the recipe by which each is drawn.

use crate::color::Color;
use crate::ops::{CanvasOp, MILLI, REACH};
use vstd::prelude::*;

verus! {

/// The blur radius of the glow of a small star: one pixel.
pub const STAR_BLUR: i64 = 1000;

/// The blur radius of the glow of a cloud: 200 pixels.
pub const CLOUD_BLUR: i64 = 200_000;

/// The opacity to which a haze blend of sample size `size` is drawn, as the
/// numerator of `HAZE_ALPHA / size`.
pub const HAZE_ALPHA: u32 = 4;

/// The number of strokes that make a galaxy band.
pub const BAND_STROKES: u32 = 20;

/// The width by which each stroke of a band exceeds the one before it: ten
/// pixels.
pub const BAND_STEP: i64 = 10_000;

/// The side of the square of a big flat dot: five pixels.
pub const BIG_DOT_SIDE: i64 = 5000;

/// The offset of the middle stop of a glow, in millionths.
pub const MIDDLE_STOP: u32 = 500_000;

/// The offset of the last stop of a glow, in millionths.
pub const LAST_STOP: u32 = 1_000_000;

/// One quadratic curve of a path: the point it bends towards and the point
/// where it ends.
#[derive(Clone, Copy, Debug, PartialEq, Eq, Structural)]
pub struct Curve {
    pub cx: i64,
    pub cy: i64,
    pub x: i64,
    pub y: i64,
}

/// One element of a scene. Lengths and coordinates are in thousandths of a
/// pixel, but for those of a haze blend, which are whole pixels.
#[derive(Clone, Copy, Debug, PartialEq, Eq, Structural)]
pub enum Element {
    /// The noisy pixel buffer of the scene, written over the whole surface.
    Noise,
    /// The start of the haze blends.
    HazeOpen,
    /// One haze blend: the whole surface, `width` by `height` pixels, drawn
    /// into the square of side `size` at `(left, top)`.
    HazeBlend { left: u32, top: u32, size: u32, width: u32, height: u32 },
    /// The end of the haze blends.
    HazeClose,
    /// The galaxy band: a translucent segment, stroked ever wider.
    Band { x1: i64, y1: i64, x2: i64, y2: i64, color: Color },
    /// A flat dot: a plain square.
    Dot { x: i64, y: i64, side: i64, color: Color },
    /// A small star: a square with a glow of its own colour.
    SmallStar { x: i64, y: i64, side: i64, color: Color },
    /// A big star that is a round glow.
    GlowStar { x: i64, y: i64, radius: i64, center: Color, middle: Color },
    /// A big star that is a glow in the shape of four spikes, which meet at
    /// `inner` from the centre on both axes.
    FlareStar { x: i64, y: i64, radius: i64, inner: i64, center: Color, middle: Color },
    /// A cloud: a closed path of two or three curves that starts at `(x, y)`;
    /// the last curve bends towards `(close_x, close_y)`.
    Cloud {
        x: i64,
        y: i64,
        first: Curve,
        second: Option<Curve>,
        close_x: i64,
        close_y: i64,
        color: Color,
    },
}

/// Whether a coordinate is within `REACH` of the origin.
pub open spec fn in_reach(v: i64) -> bool {
    -REACH <= v <= REACH
}

/// The colour of the last stop of every glow: nothing at all.
pub open spec fn clear() -> Color {
    Color { red: 0, green: 0, blue: 0, alpha: 0 }
}

/// The inner radius of a round glow: eight tenths of the outer one.
pub open spec fn glow_core(radius: i64) -> int {
    radius * 8 / 10
}

/// The inner radius of a flare: a hundredth of the outer one.
pub open spec fn flare_core(radius: i64) -> int {
    radius as int / 100
}

/// The recipe of a flat dot.
pub open spec fn dot_ops(x: i64, y: i64, side: i64, color: Color) -> Seq<CanvasOp> {
    seq![
        CanvasOp::SetFillColor { color },
        CanvasOp::FillRect { x, y, width: side, height: side },
    ]
}

/// The recipe of a small star: the glow is lit for the one square and put out
/// straight after it.
pub open spec fn small_star_ops(x: i64, y: i64, side: i64, color: Color) -> Seq<CanvasOp> {
    seq![
        CanvasOp::SetShadowColor { color },
        CanvasOp::SetShadowBlur { blur: STAR_BLUR },
        CanvasOp::SetFillColor { color },
        CanvasOp::FillRect { x, y, width: side, height: side },
        CanvasOp::SetShadowBlur { blur: 0 },
    ]
}

/// The gradient of a big star: solid `center`, `middle` at half opacity half
/// way out, nothing at the rim.
pub open spec fn glow_ops(
    x: i64,
    y: i64,
    core: i64,
    radius: i64,
    center: Color,
    middle: Color,
) -> Seq<CanvasOp> {
    seq![
        CanvasOp::CreateRadialGradient { x0: x, y0: y, r0: core, x1: x, y1: y, r1: radius },
        CanvasOp::AddColorStop { offset: 0, color: center },
        CanvasOp::AddColorStop { offset: MIDDLE_STOP, color: middle },
        CanvasOp::AddColorStop { offset: LAST_STOP, color: clear() },
        CanvasOp::SetFillGradient,
    ]
}

/// The recipe of a round glow: the gradient, on the square round the circle.
pub open spec fn glow_star_ops(x: i64, y: i64, radius: i64, center: Color, middle: Color) -> Seq<
    CanvasOp,
> {
    glow_ops(x, y, glow_core(radius) as i64, radius, center, middle).push(
        CanvasOp::FillRect {
            x: (x - radius) as i64,
            y: (y - radius) as i64,
            width: (2 * radius) as i64,
            height: (2 * radius) as i64,
        },
    )
}

/// The path of a flare: eight corners, by turns `inner` from the centre on
/// both axes and `radius` from it on one, from the upper left round by the
/// top, the right, the bottom and the left.
pub open spec fn flare_path(x: i64, y: i64, radius: i64, inner: i64) -> Seq<CanvasOp> {
    seq![
        CanvasOp::BeginPath,
        CanvasOp::MoveTo { x: (x - inner) as i64, y: (y - inner) as i64 },
        CanvasOp::LineTo { x, y: (y - radius) as i64 },
        CanvasOp::LineTo { x: (x + inner) as i64, y: (y - inner) as i64 },
        CanvasOp::LineTo { x: (x + radius) as i64, y },
        CanvasOp::LineTo { x: (x + inner) as i64, y: (y + inner) as i64 },
        CanvasOp::LineTo { x, y: (y + radius) as i64 },
        CanvasOp::LineTo { x: (x - inner) as i64, y: (y + inner) as i64 },
        CanvasOp::LineTo { x: (x - radius) as i64, y },
        CanvasOp::Fill,
    ]
}

/// The recipe of a flare: the gradient, on the path of the spikes.
pub open spec fn flare_star_ops(
    x: i64,
    y: i64,
    radius: i64,
    inner: i64,
    center: Color,
    middle: Color,
) -> Seq<CanvasOp> {
    glow_ops(x, y, flare_core(radius) as i64, radius, center, middle) + flare_path(
        x,
        y,
        radius,
        inner,
    )
}

/// One stroke of a band.
pub open spec fn stroke_ops(x1: i64, y1: i64, x2: i64, y2: i64, width: i64) -> Seq<CanvasOp> {
    seq![
        CanvasOp::SetLineWidth { width },
        CanvasOp::BeginPath,
        CanvasOp::MoveTo { x: x1, y: y1 },
        CanvasOp::LineTo { x: x2, y: y2 },
        CanvasOp::Stroke,
    ]
}

/// The first `n` strokes of a band: stroke `i` is `i` steps wide.
pub open spec fn band_strokes(x1: i64, y1: i64, x2: i64, y2: i64, n: nat) -> Seq<CanvasOp>
    decreases n,
{
    if n == 0 {
        Seq::empty()
    } else {
        band_strokes(x1, y1, x2, y2, (n - 1) as nat) + stroke_ops(
            x1,
            y1,
            x2,
            y2,
            ((n - 1) * BAND_STEP) as i64,
        )
    }
}

/// The recipe of a band: its colour, then its strokes.
pub open spec fn band_ops(x1: i64, y1: i64, x2: i64, y2: i64, color: Color) -> Seq<CanvasOp> {
    seq![CanvasOp::SetStrokeColor { color }] + band_strokes(x1, y1, x2, y2, BAND_STROKES as nat)
}

/// The recipe of a haze blend: the whole surface, drawn faintly into one
/// square of it.
pub open spec fn haze_ops(left: u32, top: u32, size: u32, width: u32, height: u32) -> Seq<
    CanvasOp,
> {
    seq![
        CanvasOp::SetGlobalAlpha { numerator: HAZE_ALPHA, denominator: size },
        CanvasOp::DrawImage {
            sx: 0,
            sy: 0,
            sw: (width * MILLI) as i64,
            sh: (height * MILLI) as i64,
            dx: (left * MILLI) as i64,
            dy: (top * MILLI) as i64,
            dw: (size * MILLI) as i64,
            dh: (size * MILLI) as i64,
        },
    ]
}

/// The curves of a cloud, the closing one included.
pub open spec fn cloud_curves(
    x: i64,
    y: i64,
    first: Curve,
    second: Option<Curve>,
    close_x: i64,
    close_y: i64,
) -> Seq<CanvasOp> {
    let opening = seq![
        CanvasOp::QuadraticCurveTo { cx: first.cx, cy: first.cy, x: first.x, y: first.y },
    ];
    let closing = seq![CanvasOp::QuadraticCurveTo { cx: close_x, cy: close_y, x, y }];
    match second {
        Some(curve) => opening.push(
            CanvasOp::QuadraticCurveTo { cx: curve.cx, cy: curve.cy, x: curve.x, y: curve.y },
        ) + closing,
        None => opening + closing,
    }
}

/// The recipe of a cloud: its colour as filling and as glow, the wide blur,
/// and the closed path.
pub open spec fn cloud_ops(
    x: i64,
    y: i64,
    first: Curve,
    second: Option<Curve>,
    close_x: i64,
    close_y: i64,
    color: Color,
) -> Seq<CanvasOp> {
    seq![
        CanvasOp::SetFillColor { color },
        CanvasOp::SetShadowColor { color },
        CanvasOp::SetShadowBlur { blur: CLOUD_BLUR },
        CanvasOp::BeginPath,
        CanvasOp::MoveTo { x, y },
    ] + cloud_curves(x, y, first, second, close_x, close_y) + seq![
        CanvasOp::ClosePath,
        CanvasOp::Fill,
    ]
}

/// Every stroke of a band is five operations.
pub proof fn lemma_strokes_len(x1: i64, y1: i64, x2: i64, y2: i64, n: nat)
    ensures
        band_strokes(x1, y1, x2, y2, n).len() == 5 * n,
    decreases n,
{
    if n > 0 {
        lemma_strokes_len(x1, y1, x2, y2, (n - 1) as nat);
    }
}

/// The strokes of a band come five operations apart, and stroke `i` sets a
/// width of `i` steps.
pub proof fn lemma_stroke_widths(x1: i64, y1: i64, x2: i64, y2: i64, n: nat, i: int)
    requires
        0 <= i < n,
    ensures
        band_strokes(x1, y1, x2, y2, n).len() == 5 * n,
        band_strokes(x1, y1, x2, y2, n)[5 * i] == (CanvasOp::SetLineWidth {
            width: (i * BAND_STEP) as i64,
        }),
        band_strokes(x1, y1, x2, y2, n)[5 * i + 4] == CanvasOp::Stroke,
    decreases n,
{
    lemma_strokes_len(x1, y1, x2, y2, n);
    lemma_strokes_len(x1, y1, x2, y2, (n - 1) as nat);
    if i < n - 1 {
        lemma_stroke_widths(x1, y1, x2, y2, (n - 1) as nat, i);
    }
}

/// A band is stroked twenty times over the same segment, each stroke ten
/// pixels wider than the one before it, from nothing to 190 pixels.
pub proof fn lemma_band_widths(x1: i64, y1: i64, x2: i64, y2: i64, color: Color, i: int)
    requires
        0 <= i < BAND_STROKES,
    ensures
        band_ops(x1, y1, x2, y2, color).len() == 1 + 5 * BAND_STROKES,
        band_ops(x1, y1, x2, y2, color)[0] == (CanvasOp::SetStrokeColor { color }),
        band_ops(x1, y1, x2, y2, color)[1 + 5 * i] == (CanvasOp::SetLineWidth {
            width: (i * 10 * MILLI) as i64,
        }),
        band_ops(x1, y1, x2, y2, color)[1 + 5 * i + 4] == CanvasOp::Stroke,
{
    lemma_stroke_widths(x1, y1, x2, y2, BAND_STROKES as nat, i);
}

impl Element {
    /// Whether the recipe of the element can be worked out exactly: the
    /// centre of a big star is in reach, and its lengths are not negative.
    pub open spec fn drawable(self) -> bool {
        match self {
            Element::GlowStar { x, y, radius, .. } => in_reach(x) && in_reach(y) && 0 <= radius
                <= REACH,
            Element::FlareStar { x, y, radius, inner, .. } => in_reach(x) && in_reach(y) && 0
                <= radius <= REACH && 0 <= inner <= REACH,
            _ => true,
        }
    }

    /// The operations that draw the element, in order.
    pub open spec fn recipe(self) -> Seq<CanvasOp> {
        match self {
            Element::Noise => seq![CanvasOp::PutImageData],
            Element::HazeOpen => seq![CanvasOp::Save],
            Element::HazeBlend { left, top, size, width, height } => haze_ops(
                left,
                top,
                size,
                width,
                height,
            ),
            Element::HazeClose => seq![CanvasOp::Restore],
            Element::Band { x1, y1, x2, y2, color } => band_ops(x1, y1, x2, y2, color),
            Element::Dot { x, y, side, color } => dot_ops(x, y, side, color),
            Element::SmallStar { x, y, side, color } => small_star_ops(x, y, side, color),
            Element::GlowStar { x, y, radius, center, middle } => glow_star_ops(
                x,
                y,
                radius,
                center,
                middle,
            ),
            Element::FlareStar { x, y, radius, inner, center, middle } => flare_star_ops(
                x,
                y,
                radius,
                inner,
                center,
                middle,
            ),
            Element::Cloud { x, y, first, second, close_x, close_y, color } => cloud_ops(
                x,
                y,
                first,
                second,
                close_x,
                close_y,
                color,
            ),
        }
    }

    /// Whether `drawable` holds.
    pub fn is_drawable(&self) -> (ok: bool)
        ensures
            ok == self.drawable(),
    {
        match *self {
            Element::GlowStar { x, y, radius, .. } => -REACH <= x && x <= REACH && -REACH <= y && y
                <= REACH && 0 <= radius && radius <= REACH,
            Element::FlareStar { x, y, radius, inner, .. } => -REACH <= x && x <= REACH && -REACH
                <= y && y <= REACH && 0 <= radius && radius <= REACH && 0 <= inner && inner
                <= REACH,
            _ => true,
        }
    }

    /// Appends the recipe of the element to a list of operations.
    pub fn draw(&self, ops: &mut Vec<CanvasOp>)
        requires
            self.drawable(),
        ensures
            final(ops)@ == old(ops)@ + self.recipe(),
    {
        match *self {
            Element::Noise => {
                ops.push(CanvasOp::PutImageData);
            },
            Element::HazeOpen => {
                ops.push(CanvasOp::Save);
            },
            Element::HazeBlend { left, top, size, width, height } => {
                ops.push(CanvasOp::SetGlobalAlpha { numerator: HAZE_ALPHA, denominator: size });
                ops.push(
                    CanvasOp::DrawImage {
                        sx: 0,
                        sy: 0,
                        sw: width as i64 * MILLI,
                        sh: height as i64 * MILLI,
                        dx: left as i64 * MILLI,
                        dy: top as i64 * MILLI,
                        dw: size as i64 * MILLI,
                        dh: size as i64 * MILLI,
                    },
                );
            },
            Element::HazeClose => {
                ops.push(CanvasOp::Restore);
            },
            Element::Band { x1, y1, x2, y2, color } => {
                draw_band(ops, x1, y1, x2, y2, color);
            },
            Element::Dot { x, y, side, color } => {
                ops.push(CanvasOp::SetFillColor { color });
                ops.push(CanvasOp::FillRect { x, y, width: side, height: side });
            },
            Element::SmallStar { x, y, side, color } => {
                ops.push(CanvasOp::SetShadowColor { color });
                ops.push(CanvasOp::SetShadowBlur { blur: STAR_BLUR });
                ops.push(CanvasOp::SetFillColor { color });
                ops.push(CanvasOp::FillRect { x, y, width: side, height: side });
                ops.push(CanvasOp::SetShadowBlur { blur: 0 });
            },
            Element::GlowStar { x, y, radius, center, middle } => {
                draw_glow(ops, x, y, radius * 8 / 10, radius, center, middle);
                ops.push(
                    CanvasOp::FillRect {
                        x: x - radius,
                        y: y - radius,
                        width: 2 * radius,
                        height: 2 * radius,
                    },
                );
            },
            Element::FlareStar { x, y, radius, inner, center, middle } => {
                draw_glow(ops, x, y, radius / 100, radius, center, middle);
                ops.push(CanvasOp::BeginPath);
                ops.push(CanvasOp::MoveTo { x: x - inner, y: y - inner });
                ops.push(CanvasOp::LineTo { x, y: y - radius });
                ops.push(CanvasOp::LineTo { x: x + inner, y: y - inner });
                ops.push(CanvasOp::LineTo { x: x + radius, y });
                ops.push(CanvasOp::LineTo { x: x + inner, y: y + inner });
                ops.push(CanvasOp::LineTo { x, y: y + radius });
                ops.push(CanvasOp::LineTo { x: x - inner, y: y + inner });
                ops.push(CanvasOp::LineTo { x: x - radius, y });
                ops.push(CanvasOp::Fill);
            },
            Element::Cloud { x, y, first, second, close_x, close_y, color } => {
                ops.push(CanvasOp::SetFillColor { color });
                ops.push(CanvasOp::SetShadowColor { color });
                ops.push(CanvasOp::SetShadowBlur { blur: CLOUD_BLUR });
                ops.push(CanvasOp::BeginPath);
                ops.push(CanvasOp::MoveTo { x, y });
                ops.push(
                    CanvasOp::QuadraticCurveTo {
                        cx: first.cx,
                        cy: first.cy,
                        x: first.x,
                        y: first.y,
                    },
                );
                match second {
                    Some(curve) => {
                        ops.push(
                            CanvasOp::QuadraticCurveTo {
                                cx: curve.cx,
                                cy: curve.cy,
                                x: curve.x,
                                y: curve.y,
                            },
                        );
                    },
                    None => {},
                }
                ops.push(CanvasOp::QuadraticCurveTo { cx: close_x, cy: close_y, x, y });
                ops.push(CanvasOp::ClosePath);
                ops.push(CanvasOp::Fill);
            },
        }
        assert(ops@ =~= old(ops)@ + self.recipe());
    }
}

fn draw_glow(
    ops: &mut Vec<CanvasOp>,
    x: i64,
    y: i64,
    core: i64,
    radius: i64,
    center: Color,
    middle: Color,
)
    ensures
        final(ops)@ == old(ops)@ + glow_ops(x, y, core, radius, center, middle),
{
    ops.push(CanvasOp::CreateRadialGradient { x0: x, y0: y, r0: core, x1: x, y1: y, r1: radius });
    ops.push(CanvasOp::AddColorStop { offset: 0, color: center });
    ops.push(CanvasOp::AddColorStop { offset: MIDDLE_STOP, color: middle });
    ops.push(
        CanvasOp::AddColorStop {
            offset: LAST_STOP,
            color: Color { red: 0, green: 0, blue: 0, alpha: 0 },
        },
    );
    ops.push(CanvasOp::SetFillGradient);
    assert(ops@ =~= old(ops)@ + glow_ops(x, y, core, radius, center, middle));
}

fn draw_band(ops: &mut Vec<CanvasOp>, x1: i64, y1: i64, x2: i64, y2: i64, color: Color)
    ensures
        final(ops)@ == old(ops)@ + band_ops(x1, y1, x2, y2, color),
{
    ops.push(CanvasOp::SetStrokeColor { color });
    let mut i: u32 = 0;
    while i < BAND_STROKES
        invariant
            i <= BAND_STROKES,
            ops@ == old(ops)@ + (seq![CanvasOp::SetStrokeColor { color }] + band_strokes(
                x1,
                y1,
                x2,
                y2,
                i as nat,
            )),
        decreases BAND_STROKES - i,
    {
        let ghost before = ops@;
        ops.push(CanvasOp::SetLineWidth { width: i as i64 * BAND_STEP });
        ops.push(CanvasOp::BeginPath);
        ops.push(CanvasOp::MoveTo { x: x1, y: y1 });
        ops.push(CanvasOp::LineTo { x: x2, y: y2 });
        ops.push(CanvasOp::Stroke);
        i = i + 1;
        assert(ops@ =~= before + stroke_ops(x1, y1, x2, y2, ((i - 1) * BAND_STEP) as i64));
        assert(ops@ =~= old(ops)@ + (seq![CanvasOp::SetStrokeColor { color }] + band_strokes(
            x1,
            y1,
            x2,
            y2,
            i as nat,
        )));
    }
}

} // verus!
