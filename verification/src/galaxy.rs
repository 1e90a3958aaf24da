//! The galaxy band: a wide translucent stroke from one edge of the surface to
//! the opposite one, and the flat dots strewn along it.

use crate::canvas::{extends, lemma_one_more};
use crate::color::Color;
use crate::context::NightContext;
use crate::element::{in_reach, Element};
use crate::error::NightError;
use crate::ops::MILLI;
use crate::point::{dot_at, Point, PointKind, CHANNEL_END, LIGHT};
use crate::random::{random_range, sample_u32, sample_u8};
use vstd::prelude::*;

verus! {

/// How far outside the surface the band begins and ends: a hundred pixels.
pub const MARGIN: i64 = 100_000;

/// The least opacity of the band, in millionths.
pub const BAND_ALPHA_LOW: u32 = 5_000;

/// The bound on the opacity of the band, in millionths.
pub const BAND_ALPHA_END: u32 = 10_000;

/// The least reach of the scatter of the dots: 25 pixels.
pub const SCATTER_LOW: i64 = 25_000;

/// The bound on the reach of the scatter of the dots: forty pixels.
pub const SCATTER_END: i64 = 40_000;

/// The length of band to which the least number of dots is one.
pub const SPARSE: u64 = 7;

/// The length of band to which the bound on the number of dots is one.
pub const DENSE: u64 = 2;

/// Whether `root` is the square root of `n`, rounded down.
pub open spec fn is_root(root: nat, n: nat) -> bool {
    root * root <= n < (root + 1) * (root + 1)
}

/// The square of the distance between two points.
pub open spec fn square_distance(x1: i64, y1: i64, x2: i64, y2: i64) -> nat {
    ((x2 - x1) * (x2 - x1) + (y2 - y1) * (y2 - y1)) as nat
}

/// Whether a band runs from the left edge to the right one: a sample from
/// the sum of both sides of the surface falls within the height.
pub open spec fn runs_across(sample: int, height: u32) -> bool {
    sample < height
}

/// The place that lies `i` of `n` steps of the way from `a` to `b`, rounded
/// towards `a`.
pub open spec fn along(a: i64, b: i64, i: nat, n: nat) -> int {
    if b >= a {
        a + (b - a) * i / (n as int)
    } else {
        a - (a - b) * i / (n as int)
    }
}

/// The ends of a band: across the surface from a hundred pixels left of it to
/// a hundred pixels right of it, from `MARGIN` above the first sampled height
/// to `MARGIN` below the second; or the same with the axes changed over.
pub open spec fn band_ends(across: bool, first: u32, second: u32, width: u32, height: u32) -> (
    int,
    int,
    int,
    int,
) {
    if across {
        (-MARGIN, first * MILLI - MARGIN, width * MILLI + MARGIN, second * MILLI + MARGIN)
    } else {
        (first * MILLI - MARGIN, -MARGIN, second * MILLI + MARGIN, height * MILLI + MARGIN)
    }
}

/// Whether the segment is a band of the surface.
pub open spec fn band_on(x1: i64, y1: i64, x2: i64, y2: i64, width: u32, height: u32) -> bool {
    exists|across: bool, first: u32, second: u32|
        {
            &&& first < (if across {
                height
            } else {
                width
            })
            &&& second < (if across {
                height
            } else {
                width
            })
            &&& (x1 as int, y1 as int, x2 as int, y2 as int) == #[trigger] band_ends(
                across,
                first,
                second,
                width,
                height,
            )
        }
}

/// Whether the colour is that of a band: light, and all but clear.
pub open spec fn band_color(color: Color) -> bool {
    &&& LIGHT <= color.red < CHANNEL_END
    &&& LIGHT <= color.green < CHANNEL_END
    &&& LIGHT <= color.blue < CHANNEL_END
    &&& BAND_ALPHA_LOW <= color.alpha < BAND_ALPHA_END
}

/// Whether the element is dot `i` of `n` along a segment: a small flat dot
/// less than `reach` on both axes from its place along the segment.
pub open spec fn band_dot(
    element: Element,
    i: int,
    n: int,
    x1: i64,
    y1: i64,
    x2: i64,
    y2: i64,
    reach: i64,
) -> bool {
    &&& element matches Element::Dot { x, y, .. }
    &&& 0 <= i < n
    &&& along(x1, x2, i as nat, n as nat) - reach <= x < along(x1, x2, i as nat, n as nat) + reach
    &&& along(y1, y2, i as nat, n as nat) - reach <= y < along(y1, y2, i as nat, n as nat) + reach
    &&& dot_at(element, PointKind::Small, x, y)
}

/// Whether the elements after `from` up to `to` are the dots of a segment
/// of the given length: a number of them between a seventh and a half of its
/// length in pixels, each near its place along it, under the given reach.
pub open spec fn band_dots_under(
    elements: Seq<Element>,
    from: int,
    to: int,
    x1: i64,
    y1: i64,
    x2: i64,
    y2: i64,
    length: nat,
    reach: i64,
) -> bool {
    &&& is_root(length, square_distance(x1, y1, x2, y2))
    &&& length / (MILLI as nat) / (SPARSE as nat) <= to - from - 1 < length / (MILLI as nat) / (
    DENSE as nat)
    &&& SCATTER_LOW <= reach < SCATTER_END
    &&& forall|i: int|
        from < i < to ==> #[trigger] band_dot(
            elements[i],
            i - from - 1,
            to - from - 1,
            x1,
            y1,
            x2,
            y2,
            reach,
        )
}

/// Whether the elements after `from` up to `to` are the dots of a segment,
/// under one reach from `SCATTER_LOW..SCATTER_END`.
pub open spec fn are_band_dots(
    elements: Seq<Element>,
    from: int,
    to: int,
    x1: i64,
    y1: i64,
    x2: i64,
    y2: i64,
) -> bool {
    exists|length: nat, reach: i64| #[trigger]
        band_dots_under(elements, from, to, x1, y1, x2, y2, length, reach)
}

/// Whether the elements from `from` up to `to` are a galaxy: a band of the
/// surface, then its dots.
pub open spec fn is_galaxy(
    elements: Seq<Element>,
    from: int,
    to: int,
    width: u32,
    height: u32,
) -> bool {
    &&& 0 <= from < to <= elements.len()
    &&& elements[from] matches Element::Band { x1, y1, x2, y2, color }
    &&& band_on(x1, y1, x2, y2, width, height)
    &&& band_color(color)
    &&& are_band_dots(elements, from, to, x1, y1, x2, y2)
}

/// A galaxy stays one when elements are added after it.
pub proof fn lemma_galaxy_stays(
    before: Seq<Element>,
    after: Seq<Element>,
    from: int,
    to: int,
    width: u32,
    height: u32,
)
    requires
        is_galaxy(before, from, to, width, height),
        extends(after, before),
    ensures
        is_galaxy(after, from, to, width, height),
{
    assert(after[from] == before[from]);
    match before[from] {
        Element::Band { x1, y1, x2, y2, color } => {
            let (length, reach) = choose|length: nat, reach: i64| #[trigger]
                band_dots_under(before, from, to, x1, y1, x2, y2, length, reach);
            assert forall|i: int| from < i < to implies #[trigger] band_dot(
                after[i],
                i - from - 1,
                to - from - 1,
                x1,
                y1,
                x2,
                y2,
                reach,
            ) by {
                assert(after[i] == before[i]);
            }
            assert(band_dots_under(after, from, to, x1, y1, x2, y2, length, reach));
        },
        _ => {},
    }
}

/// Of the samples that decide the direction of a band, as many choose the
/// one across as the surface has pixels of height: a share of the height in
/// the sum of both sides.
pub proof fn lemma_share_across(width: u32, height: u32)
    ensures
        Set::new(|sample: int| 0 <= sample < width + height).len() == width + height,
        Set::new(|sample: int| 0 <= sample < width + height && runs_across(sample, height)).len()
            == height,
{
    vstd::set_lib::lemma_int_range(0, width + height);
    vstd::set_lib::lemma_int_range(0, height as int);
    assert(Set::new(|sample: int| 0 <= sample < width + height) =~= vstd::set_lib::set_int_range(
        0,
        width + height,
    ));
    assert(Set::new(|sample: int| 0 <= sample < width + height && runs_across(sample, height))
        =~= vstd::set_lib::set_int_range(0, height as int));
}

/// The square root of a number, rounded down.
pub fn integer_sqrt(n: u128) -> (root: u64)
    ensures
        is_root(root as nat, n as nat),
{
    let mut low: u128 = 0;
    let mut high: u128 = 0x1_0000_0000_0000_0000;
    while high - low > 1
        invariant
            low < high <= 0x1_0000_0000_0000_0000,
            low * low <= n < high * high,
        decreases high - low,
    {
        let middle = low + (high - low) / 2;
        assert(middle * middle <= 0xffff_ffff_ffff_ffff * 0xffff_ffff_ffff_ffff) by (
            nonlinear_arith)
            requires
                0 <= middle <= 0xffff_ffff_ffff_ffff,
        ;
        if middle * middle <= n {
            low = middle;
        } else {
            high = middle;
        }
    }
    low as u64
}

/// Whether a band runs from the left edge to the right one.
pub fn chooses_across(sample: u64, height: u32) -> (across: bool)
    ensures
        across == runs_across(sample as int, height),
{
    sample < height as u64
}

/// The ends of a band for what was sampled: its direction and the two places
/// on the edges.
pub fn place_band(across: bool, first: u32, second: u32, width: u32, height: u32) -> (ends: (
    i64,
    i64,
    i64,
    i64,
))
    ensures
        (ends.0 as int, ends.1 as int, ends.2 as int, ends.3 as int) == band_ends(
            across,
            first,
            second,
            width,
            height,
        ),
        in_reach(ends.0),
        in_reach(ends.1),
        in_reach(ends.2),
        in_reach(ends.3),
{
    if across {
        (
            -MARGIN,
            first as i64 * MILLI - MARGIN,
            width as i64 * MILLI + MARGIN,
            second as i64 * MILLI + MARGIN,
        )
    } else {
        (
            first as i64 * MILLI - MARGIN,
            -MARGIN,
            second as i64 * MILLI + MARGIN,
            height as i64 * MILLI + MARGIN,
        )
    }
}

/// The place `i` of `n` steps of the way from `a` to `b`.
pub fn step_along(a: i64, b: i64, i: u64, n: u64) -> (place: i64)
    requires
        in_reach(a),
        in_reach(b),
        i <= n,
        n > 0,
    ensures
        place == along(a, b, i as nat, n as nat),
        a <= place <= b || b <= place <= a,
{
    if b >= a {
        let span = (b - a) as u128;
        assert(span * i / (n as int) <= span && span * i <= span * 0xffff_ffff_ffff_ffff) by (
            nonlinear_arith)
            requires
                0 <= i <= n,
                n > 0,
                0 <= span,
                n <= 0xffff_ffff_ffff_ffff,
        ;
        a + ((span * i as u128) / n as u128) as i64
    } else {
        let span = (a - b) as u128;
        assert(span * i / (n as int) <= span && span * i <= span * 0xffff_ffff_ffff_ffff) by (
            nonlinear_arith)
            requires
                0 <= i <= n,
                n > 0,
                0 <= span,
                n <= 0xffff_ffff_ffff_ffff,
        ;
        a - ((span * i as u128) / n as u128) as i64
    }
}

/// The length of a segment, rounded down.
pub fn segment_length(x1: i64, y1: i64, x2: i64, y2: i64) -> (length: u64)
    requires
        in_reach(x1),
        in_reach(y1),
        in_reach(x2),
        in_reach(y2),
    ensures
        is_root(length as nat, square_distance(x1, y1, x2, y2)),
        length >= x2 - x1,
        length >= x1 - x2,
        length >= y2 - y1,
        length >= y1 - y2,
{
    let dx: u128 = if x2 >= x1 {
        (x2 - x1) as u128
    } else {
        (x1 - x2) as u128
    };
    let dy: u128 = if y2 >= y1 {
        (y2 - y1) as u128
    } else {
        (y1 - y2) as u128
    };
    assert(dx * dx <= 0x1_0000_0000_0000_0000_0000_0000_0000 && dy * dy
        <= 0x1_0000_0000_0000_0000_0000_0000_0000) by (nonlinear_arith)
        requires
            0 <= dx <= 0x100_0000_0000_0000,
            0 <= dy <= 0x100_0000_0000_0000,
    ;
    assert(dx * dx == (x2 - x1) * (x2 - x1) && dy * dy == (y2 - y1) * (y2 - y1)) by (
        nonlinear_arith)
        requires
            dx == x2 - x1 || dx == x1 - x2,
            dy == y2 - y1 || dy == y1 - y2,
    ;
    let root = integer_sqrt(dx * dx + dy * dy);
    assert(root >= dx && root >= dy) by (nonlinear_arith)
        requires
            0 <= dx,
            0 <= dy,
            0 <= root,
            dx * dx + dy * dy < (root + 1) * (root + 1),
    ;
    root
}

/// Draws the galaxy: samples the direction of the band, its two ends and its
/// colour, then the number of dots and the reach of their scatter, then each
/// dot near its place along the band. On a surface with a side of zero there
/// is no edge to sample on, and nothing is drawn.
pub fn generate_galaxy(
    global_width: u32,
    global_height: u32,
    ctx: &mut NightContext,
) -> (done: Result<(), NightError>)
    ensures
        final(ctx).keeps(*old(ctx)),
        extends(final(ctx).canvas.elements@, old(ctx).canvas.elements@),
        old(ctx).canvas.drawable() ==> final(ctx).canvas.drawable(),
        done is Err <==> global_width == 0 || global_height == 0,
        done is Err ==> done == Err::<(), NightError>(NightError::DegenerateSurface)
            && final(ctx).canvas.elements@ == old(ctx).canvas.elements@,
        done is Ok ==> is_galaxy(
            final(ctx).canvas.elements@,
            old(ctx).canvas.elements@.len() as int,
            final(ctx).canvas.elements@.len() as int,
            global_width,
            global_height,
        ),
{
    if global_width == 0 || global_height == 0 {
        return Err(NightError::DegenerateSurface);
    }
    let sample = random_range(&mut ctx.rng, 0, global_width as i64 + global_height as i64);
    let across = chooses_across(sample as u64, global_height);
    let extent = if across {
        global_height
    } else {
        global_width
    };
    let first = sample_u32(&mut ctx.rng, 0, extent);
    let second = sample_u32(&mut ctx.rng, 0, extent);
    let (x1, y1, x2, y2) = place_band(across, first, second, global_width, global_height);
    let red = sample_u8(&mut ctx.rng, LIGHT, CHANNEL_END);
    let green = sample_u8(&mut ctx.rng, LIGHT, CHANNEL_END);
    let blue = sample_u8(&mut ctx.rng, LIGHT, CHANNEL_END);
    let alpha = sample_u32(&mut ctx.rng, BAND_ALPHA_LOW, BAND_ALPHA_END);
    let color = Color { red, green, blue, alpha };
    let ghost from = ctx.canvas.elements@.len() as int;
    ctx.canvas.elements.push(Element::Band { x1, y1, x2, y2, color });
    let length = segment_length(x1, y1, x2, y2);
    assert(length >= 2 * MARGIN) by {
        if across {
            assert(x2 - x1 >= 2 * MARGIN);
        } else {
            assert(y2 - y1 >= 2 * MARGIN);
        }
    }
    let pixels = length / MILLI as u64;
    assert(pixels == length / 1000 >= 200);
    let dots = random_range(&mut ctx.rng, (pixels / SPARSE) as i64, (pixels / DENSE) as i64) as u64;
    let reach = random_range(&mut ctx.rng, SCATTER_LOW, SCATTER_END);
    let mut drawn: u64 = 0;
    while drawn < dots
        invariant
            drawn <= dots,
            in_reach(x1),
            in_reach(y1),
            in_reach(x2),
            in_reach(y2),
            SCATTER_LOW <= reach < SCATTER_END,
            ctx.keeps(*old(ctx)),
            extends(ctx.canvas.elements@, old(ctx).canvas.elements@),
            old(ctx).canvas.drawable() ==> ctx.canvas.drawable(),
            from == old(ctx).canvas.elements@.len(),
            ctx.canvas.elements@.len() == from + 1 + drawn,
            ctx.canvas.elements@[from] == (Element::Band { x1, y1, x2, y2, color }),
            forall|i: int|
                from < i < from + 1 + drawn ==> #[trigger] band_dot(
                    ctx.canvas.elements@[i],
                    i - from - 1,
                    dots as int,
                    x1,
                    y1,
                    x2,
                    y2,
                    reach,
                ),
        decreases dots - drawn,
    {
        let x = step_along(x1, x2, drawn, dots) + random_range(&mut ctx.rng, -reach, reach);
        let y = step_along(y1, y2, drawn, dots) + random_range(&mut ctx.rng, -reach, reach);
        let p = Point { kind: PointKind::Small, x, y };
        let ghost before = ctx.canvas.elements@;
        p.draw_flat(ctx);
        proof {
            lemma_one_more(before, ctx.canvas.elements@);
            assert(band_dot(
                ctx.canvas.elements@[before.len() as int],
                drawn as int,
                dots as int,
                x1,
                y1,
                x2,
                y2,
                reach,
            ));
        }
        drawn = drawn + 1;
    }
    proof {
        let elements = ctx.canvas.elements@;
        let to = elements.len() as int;
        assert(band_dots_under(elements, from, to, x1, y1, x2, y2, length as nat, reach));
        assert(band_on(x1, y1, x2, y2, global_width, global_height));
    }
    Ok(())
}

} // verus!
