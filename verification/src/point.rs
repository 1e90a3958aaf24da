//! Points of the surface, and the stars drawn at them.

use crate::color::{Color, OPAQUE};
use crate::context::NightContext;
use crate::element::{in_reach, Element, BIG_DOT_SIDE, LAST_STOP, MIDDLE_STOP};
use crate::ops::CanvasOp;
use crate::random::random_range;
use vstd::prelude::*;

verus! {

/// The least channel of a light colour.
pub const LIGHT: u8 = 150;

/// The least channel of the centre of a big star.
pub const BRIGHT: u8 = 200;

/// The bound that no sampled channel of a star reaches.
pub const CHANNEL_END: u8 = 255;

/// The opacity of the middle stop of a big star: a half.
pub const HALF: u32 = 500_000;

/// The least side of a small square: a tenth of a pixel.
pub const SIDE_LOW: i64 = 100;

/// The bound on the side of a small square: 1.9 pixels.
pub const SIDE_END: i64 = 1900;

/// The least radius of a round glow: two pixels.
pub const GLOW_LOW: i64 = 2000;

/// The bound on the radius of a round glow: six pixels.
pub const GLOW_END: i64 = 6000;

/// The least radius of a flare: thirty pixels.
pub const FLARE_LOW: i64 = 30_000;

/// The bound on the radius of a flare: sixty pixels.
pub const FLARE_END: i64 = 60_000;

/// The least distance from the centre at which the spikes of a flare meet:
/// half a pixel.
pub const INNER_LOW: i64 = 500;

/// The bound on that distance: three pixels.
pub const INNER_END: i64 = 3000;

/// How a point is drawn.
#[derive(Clone, Copy, Debug, PartialEq, Eq, Structural)]
pub enum PointKind {
    Small,
    Big,
}

/// A place on the surface, in thousandths of a pixel, and the kind of star
/// that belongs there.
#[derive(Clone, Copy, Debug, PartialEq, Eq, Structural)]
pub struct Point {
    pub kind: PointKind,
    pub x: i64,
    pub y: i64,
}

/// Whether the element is a small star at `(x, y)` as the recipe samples it:
/// a light solid colour and a side from `SIDE_LOW..SIDE_END`.
pub open spec fn small_star_at(element: Element, x: i64, y: i64) -> bool {
    &&& element matches Element::SmallStar { x: at_x, y: at_y, side, color }
    &&& at_x == x
    &&& at_y == y
    &&& SIDE_LOW <= side < SIDE_END
    &&& color.within(LIGHT, CHANNEL_END, OPAQUE)
}

/// Whether the element is a flat dot at `(x, y)` as the recipe samples it: a
/// light solid colour, and a side from `SIDE_LOW..SIDE_END` for a small point,
/// of `BIG_DOT_SIDE` for a big one.
pub open spec fn dot_at(element: Element, kind: PointKind, x: i64, y: i64) -> bool {
    &&& element matches Element::Dot { x: at_x, y: at_y, side, color }
    &&& at_x == x
    &&& at_y == y
    &&& color.within(LIGHT, CHANNEL_END, OPAQUE)
    &&& match kind {
        PointKind::Small => SIDE_LOW <= side < SIDE_END,
        PointKind::Big => side == BIG_DOT_SIDE,
    }
}

/// Whether the element is a big star at `(x, y)` as the recipe samples it: a
/// bright solid centre and a light middle at half opacity; where `flares`, a
/// flare with a radius from `FLARE_LOW..FLARE_END` whose spikes meet at a
/// distance from `INNER_LOW..INNER_END`, else a round glow with a radius from
/// `GLOW_LOW..GLOW_END`.
pub open spec fn big_star_at(element: Element, flares: bool, x: i64, y: i64) -> bool {
    if flares {
        &&& element matches Element::FlareStar { x: at_x, y: at_y, radius, inner, center, middle }
        &&& at_x == x
        &&& at_y == y
        &&& FLARE_LOW <= radius < FLARE_END
        &&& INNER_LOW <= inner < INNER_END
        &&& center.within(BRIGHT, CHANNEL_END, OPAQUE)
        &&& middle.within(LIGHT, CHANNEL_END, HALF)
    } else {
        &&& element matches Element::GlowStar { x: at_x, y: at_y, radius, center, middle }
        &&& at_x == x
        &&& at_y == y
        &&& GLOW_LOW <= radius < GLOW_END
        &&& center.within(BRIGHT, CHANNEL_END, OPAQUE)
        &&& middle.within(LIGHT, CHANNEL_END, HALF)
    }
}

/// Whether the element is the star that `draw` puts at a point.
pub open spec fn star_at(element: Element, point: Point, flares: bool) -> bool {
    match point.kind {
        PointKind::Small => small_star_at(element, point.x, point.y),
        PointKind::Big => big_star_at(element, flares, point.x, point.y),
    }
}

/// Whether `after` is `before` with one element more.
pub open spec fn one_more(after: NightContext, before: NightContext) -> bool {
    &&& after.keeps(before)
    &&& after.canvas.elements@.len() == before.canvas.elements@.len() + 1
    &&& after.canvas.elements@.drop_last() == before.canvas.elements@
}

/// The glow of a big star fades outwards: its three stops stand at the
/// centre, half way and at the rim, in that order, and each is clearer than
/// the one before it, from solid to nothing.
pub proof fn lemma_big_star_fades(element: Element, flares: bool, x: i64, y: i64)
    requires
        big_star_at(element, flares, x, y),
    ensures
        element.recipe()[0] is CreateRadialGradient,
        element.recipe()[1] matches CanvasOp::AddColorStop { offset: first, color: center },
        element.recipe()[2] matches CanvasOp::AddColorStop { offset: second, color: middle },
        element.recipe()[3] matches CanvasOp::AddColorStop { offset: third, color: rim },
        element.recipe()[4] == CanvasOp::SetFillGradient,
        ({
            &&& element.recipe()[1] matches CanvasOp::AddColorStop { offset: first, color: center }
            &&& element.recipe()[2] matches CanvasOp::AddColorStop { offset: second, color: middle }
            &&& element.recipe()[3] matches CanvasOp::AddColorStop { offset: third, color: rim }
            &&& first == 0
            &&& second == MIDDLE_STOP
            &&& third == LAST_STOP
            &&& first < second < third
            &&& center.alpha == OPAQUE
            &&& middle.alpha == HALF
            &&& rim.alpha == 0
            &&& center.alpha > middle.alpha > rim.alpha
        }),
{
}

impl Point {
    /// Whether both coordinates are in reach.
    pub open spec fn in_reach(self) -> bool {
        in_reach(self.x) && in_reach(self.y)
    }

    /// Draws the star of the point's kind.
    pub fn draw(&self, ctx: &mut NightContext)
        requires
            self.kind == PointKind::Big ==> self.in_reach(),
        ensures
            one_more(*final(ctx), *old(ctx)),
            star_at(final(ctx).canvas.elements@.last(), *self, old(ctx).lens.flares()),
            final(ctx).canvas.elements@.last().drawable(),
    {
        match self.kind {
            PointKind::Small => self.draw_small(ctx),
            PointKind::Big => self.draw_big(ctx),
        }
    }

    /// Draws a small star here: samples its colour, then its side.
    pub fn draw_small(&self, ctx: &mut NightContext)
        ensures
            one_more(*final(ctx), *old(ctx)),
            small_star_at(final(ctx).canvas.elements@.last(), self.x, self.y),
            final(ctx).canvas.elements@.last().drawable(),
    {
        let color = Color::sample(&mut ctx.rng, LIGHT, CHANNEL_END, OPAQUE);
        let side = random_range(&mut ctx.rng, SIDE_LOW, SIDE_END);
        ctx.canvas.elements.push(Element::SmallStar { x: self.x, y: self.y, side, color });
        assert(ctx.canvas.elements@.drop_last() =~= old(ctx).canvas.elements@);
    }

    /// Draws a big star here: samples its radius, the colour of its centre,
    /// that of its middle and, for a flare, where the spikes meet.
    pub fn draw_big(&self, ctx: &mut NightContext)
        requires
            self.in_reach(),
        ensures
            one_more(*final(ctx), *old(ctx)),
            big_star_at(
                final(ctx).canvas.elements@.last(),
                old(ctx).lens.flares(),
                self.x,
                self.y,
            ),
            final(ctx).canvas.elements@.last().drawable(),
    {
        if ctx.lens.has_flares() {
            let radius = random_range(&mut ctx.rng, FLARE_LOW, FLARE_END);
            let center = Color::sample(&mut ctx.rng, BRIGHT, CHANNEL_END, OPAQUE);
            let middle = Color::sample(&mut ctx.rng, LIGHT, CHANNEL_END, HALF);
            let inner = random_range(&mut ctx.rng, INNER_LOW, INNER_END);
            ctx.canvas.elements.push(
                Element::FlareStar { x: self.x, y: self.y, radius, inner, center, middle },
            );
        } else {
            let radius = random_range(&mut ctx.rng, GLOW_LOW, GLOW_END);
            let center = Color::sample(&mut ctx.rng, BRIGHT, CHANNEL_END, OPAQUE);
            let middle = Color::sample(&mut ctx.rng, LIGHT, CHANNEL_END, HALF);
            ctx.canvas.elements.push(
                Element::GlowStar { x: self.x, y: self.y, radius, center, middle },
            );
        }
        assert(ctx.canvas.elements@.drop_last() =~= old(ctx).canvas.elements@);
    }

    /// Draws a flat dot here: samples its colour and, for a small point, its
    /// side.
    pub fn draw_flat(&self, ctx: &mut NightContext)
        ensures
            one_more(*final(ctx), *old(ctx)),
            dot_at(final(ctx).canvas.elements@.last(), self.kind, self.x, self.y),
            final(ctx).canvas.elements@.last().drawable(),
    {
        let color = Color::sample(&mut ctx.rng, LIGHT, CHANNEL_END, OPAQUE);
        let side = match self.kind {
            PointKind::Small => random_range(&mut ctx.rng, SIDE_LOW, SIDE_END),
            PointKind::Big => BIG_DOT_SIDE,
        };
        ctx.canvas.elements.push(Element::Dot { x: self.x, y: self.y, side, color });
        assert(ctx.canvas.elements@.drop_last() =~= old(ctx).canvas.elements@);
    }
}

} // verus!
