//! The clouds: a few large grey shapes, all but clear, with a wide glow.

use crate::canvas::extends;
use crate::color::Color;
use crate::context::NightContext;
use crate::element::{Curve, Element};
use crate::error::NightError;
use crate::random::{random_range, sample_u32, sample_u8};
use rand::rngs::ThreadRng;
use vstd::prelude::*;

verus! {

/// The least number of clouds.
pub const CLOUDS_LOW: u32 = 1;

/// The bound on the number of clouds.
pub const CLOUDS_END: u32 = 4;

/// The least number of curves of a cloud, the closing one left out.
pub const CURVES_LOW: u32 = 1;

/// The bound on the number of curves of a cloud, the closing one left out.
pub const CURVES_END: u32 = 3;

/// The bound on the grey of a cloud.
pub const GREY_END: u8 = 50;

/// The least opacity of a cloud, in millionths.
pub const CLOUD_ALPHA_LOW: u32 = 10_000;

/// The bound on the opacity of a cloud, in millionths.
pub const CLOUD_ALPHA_END: u32 = 80_000;

/// How far before a side the clouds begin, in thousandths of a pixel to each
/// pixel of the side: half of it.
pub const BEFORE: i64 = 500;

/// Where after the start of a side the clouds end, in thousandths of a pixel
/// to each pixel of the side: one and a half of it.
pub const AFTER: i64 = 1500;

/// Whether a coordinate lies along a side `extent` pixels long or less than
/// half of it outside.
pub open spec fn near_side(v: i64, extent: u32) -> bool {
    -(extent * BEFORE) <= v < extent * AFTER
}

/// Whether both points of a curve lie on the surface or near it.
pub open spec fn curve_near(curve: Curve, width: u32, height: u32) -> bool {
    &&& near_side(curve.cx, width)
    &&& near_side(curve.cy, height)
    &&& near_side(curve.x, width)
    &&& near_side(curve.y, height)
}

/// Whether the colour is that of a cloud: a dark grey, all but clear.
pub open spec fn cloud_color(color: Color) -> bool {
    &&& color.red < GREY_END
    &&& color.green == color.red
    &&& color.blue == color.red
    &&& CLOUD_ALPHA_LOW <= color.alpha < CLOUD_ALPHA_END
}

/// Whether the element is a cloud of the surface: every point of its path on
/// the surface or near it, in the colour of a cloud.
pub open spec fn is_cloud(element: Element, width: u32, height: u32) -> bool {
    &&& element matches Element::Cloud { x, y, first, second, close_x, close_y, color }
    &&& near_side(x, width)
    &&& near_side(y, height)
    &&& curve_near(first, width, height)
    &&& (second matches Some(curve) ==> curve_near(curve, width, height))
    &&& near_side(close_x, width)
    &&& near_side(close_y, height)
    &&& cloud_color(color)
}

/// Whether the elements from `from` up to `to` are the clouds of the
/// surface: one, two or three of them.
pub open spec fn are_clouds(
    elements: Seq<Element>,
    from: int,
    to: int,
    width: u32,
    height: u32,
) -> bool {
    &&& 0 <= from <= to <= elements.len()
    &&& CLOUDS_LOW <= to - from < CLOUDS_END
    &&& forall|i: int| from <= i < to ==> is_cloud(#[trigger] elements[i], width, height)
}

/// A coordinate sampled along a side or near it.
fn sample_near(rng: &mut ThreadRng, extent: u32) -> (v: i64)
    requires
        extent > 0,
    ensures
        near_side(v, extent),
{
    random_range(rng, -(extent as i64 * BEFORE), extent as i64 * AFTER)
}

/// A curve with both points sampled: the one it bends towards first.
fn sample_curve(rng: &mut ThreadRng, width: u32, height: u32) -> (curve: Curve)
    requires
        width > 0,
        height > 0,
    ensures
        curve_near(curve, width, height),
{
    let cx = sample_near(rng, width);
    let cy = sample_near(rng, height);
    let x = sample_near(rng, width);
    let y = sample_near(rng, height);
    Curve { cx, cy, x, y }
}

/// Draws a sampled number of clouds: for each its start, one or two curves,
/// the point that the closing curve bends towards, its grey and its opacity.
/// On a surface with a side of zero there is no place to sample, and nothing
/// is drawn.
pub fn generate_clouds(
    global_width: u32,
    global_height: u32,
    ctx: &mut NightContext,
) -> (done: Result<(), NightError>)
    ensures
        final(ctx).keeps(*old(ctx)),
        extends(final(ctx).canvas.elements@, old(ctx).canvas.elements@),
        old(ctx).canvas.drawable() ==> final(ctx).canvas.drawable(),
        done is Err <==> global_width == 0 || global_height == 0,
        done is Err ==> done == Err::<(), NightError>(NightError::DegenerateSurface)
            && final(ctx).canvas.elements@ == old(ctx).canvas.elements@,
        done is Ok ==> are_clouds(
            final(ctx).canvas.elements@,
            old(ctx).canvas.elements@.len() as int,
            final(ctx).canvas.elements@.len() as int,
            global_width,
            global_height,
        ),
{
    if global_width == 0 || global_height == 0 {
        return Err(NightError::DegenerateSurface);
    }
    let clouds = sample_u32(&mut ctx.rng, CLOUDS_LOW, CLOUDS_END);
    let mut drawn: u32 = 0;
    while drawn < clouds
        invariant
            drawn <= clouds,
            global_width > 0,
            global_height > 0,
            ctx.keeps(*old(ctx)),
            extends(ctx.canvas.elements@, old(ctx).canvas.elements@),
            old(ctx).canvas.drawable() ==> ctx.canvas.drawable(),
            ctx.canvas.elements@.len() == old(ctx).canvas.elements@.len() + drawn,
            forall|i: int|
                old(ctx).canvas.elements@.len() <= i < ctx.canvas.elements@.len() ==> is_cloud(
                    #[trigger] ctx.canvas.elements@[i],
                    global_width,
                    global_height,
                ),
        decreases clouds - drawn,
    {
        let x = sample_near(&mut ctx.rng, global_width);
        let y = sample_near(&mut ctx.rng, global_height);
        let curves = sample_u32(&mut ctx.rng, CURVES_LOW, CURVES_END);
        let first = sample_curve(&mut ctx.rng, global_width, global_height);
        let second = if curves > CURVES_LOW {
            Some(sample_curve(&mut ctx.rng, global_width, global_height))
        } else {
            None
        };
        let close_x = sample_near(&mut ctx.rng, global_width);
        let close_y = sample_near(&mut ctx.rng, global_height);
        let grey = sample_u8(&mut ctx.rng, 0, GREY_END);
        let alpha = sample_u32(&mut ctx.rng, CLOUD_ALPHA_LOW, CLOUD_ALPHA_END);
        let color = Color { red: grey, green: grey, blue: grey, alpha };
        ctx.canvas.elements.push(Element::Cloud { x, y, first, second, close_x, close_y, color });
        drawn = drawn + 1;
    }
    Ok(())
}

} // verus!
