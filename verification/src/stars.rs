//! The star fields: stars spread over the whole surface, clusters of them,
//! and a few big ones in front.

use crate::canvas::{extends, lemma_one_more};
use crate::context::NightContext;
use crate::element::Element;
use crate::error::NightError;
use crate::ops::{MILLI, REACH};
use crate::point::{big_star_at, small_star_at, Point, PointKind};
use crate::random::{random_range, sample_u32};
use vstd::prelude::*;

verus! {

/// The least size of a cluster: forty pixels.
pub const CLUSTER_LOW: i64 = 40_000;

/// The bound on the size of a cluster: 75 pixels.
pub const CLUSTER_END: i64 = 75_000;

/// The least number sampled for the members of a cluster.
pub const MEMBERS_LOW: u32 = 10;

/// The bound on the number sampled for the members of a cluster.
pub const MEMBERS_END: u32 = 50;

/// How many of the sampled number of members are not drawn.
pub const SKIPPED: u32 = 5;

/// The least area of the surface, in pixels, for one star of the field.
pub open spec fn divisor_low(galaxy: bool) -> int {
    if galaxy {
        500
    } else {
        300
    }
}

/// The bound on the area of the surface for one star of the field.
pub open spec fn divisor_end(galaxy: bool) -> int {
    if galaxy {
        1500
    } else {
        900
    }
}

/// The least number of clusters.
pub open spec fn clusters_low(galaxy: bool) -> int {
    if galaxy {
        6
    } else {
        15
    }
}

/// The bound on the number of clusters.
pub open spec fn clusters_end(galaxy: bool) -> int {
    if galaxy {
        20
    } else {
        40
    }
}

/// The least number of big stars.
pub open spec fn closest_low(galaxy: bool) -> int {
    if galaxy {
        8
    } else {
        10
    }
}

/// The bound on the number of big stars.
pub open spec fn closest_end(galaxy: bool) -> int {
    if galaxy {
        20
    } else {
        40
    }
}

/// The number of stars of the field on a surface, for a divisor: one star to
/// every `divisor` pixels of area, rounded down.
pub open spec fn star_count(width: u32, height: u32, divisor: int) -> int {
    width * height / divisor
}

/// Whether a coordinate is a whole pixel of a side `extent` pixels long.
pub open spec fn on_pixel(v: i64, extent: u32) -> bool {
    0 <= v < extent * MILLI && v as int % MILLI as int == 0
}

/// Whether the element is a small star on a pixel of the surface.
pub open spec fn field_star(element: Element, width: u32, height: u32) -> bool {
    &&& element matches Element::SmallStar { x, y, .. }
    &&& on_pixel(x, width)
    &&& on_pixel(y, height)
    &&& small_star_at(element, x, y)
}

/// Whether the element is a big star on a pixel of the surface.
pub open spec fn front_star(element: Element, flares: bool, width: u32, height: u32) -> bool {
    exists|x: i64, y: i64|
        on_pixel(x, width) && on_pixel(y, height) && #[trigger] big_star_at(element, flares, x, y)
}

/// Whether the element is a small star less than `size` from `(x, y)` on both
/// axes: from `size` before it up to, but not, `size` after it.
pub open spec fn cluster_member(element: Element, x: i64, y: i64, size: i64) -> bool {
    &&& element matches Element::SmallStar { x: at_x, y: at_y, .. }
    &&& x - size <= at_x < x + size
    &&& y - size <= at_y < y + size
    &&& small_star_at(element, at_x, at_y)
}

/// Whether the elements from `from` up to `to` are one cluster: as many as a
/// sample from `MEMBERS_LOW..MEMBERS_END` less `SKIPPED`, all members of a
/// cluster round one pixel of the surface, of one size from
/// `CLUSTER_LOW..CLUSTER_END`.
pub open spec fn is_cluster(
    elements: Seq<Element>,
    from: int,
    to: int,
    width: u32,
    height: u32,
) -> bool {
    &&& 0 <= from <= to <= elements.len()
    &&& MEMBERS_LOW - SKIPPED <= to - from < MEMBERS_END - SKIPPED
    &&& exists|x: i64, y: i64, size: i64|
        #![trigger cluster_member(elements[from], x, y, size)]
        {
            &&& on_pixel(x, width)
            &&& on_pixel(y, height)
            &&& CLUSTER_LOW <= size < CLUSTER_END
            &&& forall|i: int| from <= i < to ==> cluster_member(#[trigger] elements[i], x, y, size)
        }
}

/// Whether the elements between each two neighbours of `cuts` are one
/// cluster.
pub open spec fn are_clusters(
    elements: Seq<Element>,
    cuts: Seq<int>,
    width: u32,
    height: u32,
) -> bool {
    forall|k: int|
        0 <= k < cuts.len() - 1 ==> is_cluster(
            elements,
            #[trigger] cuts[k],
            cuts[k + 1],
            width,
            height,
        )
}

/// Whether the elements from `from` up to `to` are a star field: one small
/// star on a pixel of the surface to every `d` pixels of its area, for one
/// `d` of the range that goes with `galaxy`.
pub open spec fn is_star_field(
    elements: Seq<Element>,
    from: int,
    to: int,
    width: u32,
    height: u32,
    galaxy: bool,
) -> bool {
    &&& 0 <= from <= to <= elements.len()
    &&& exists|divisor: int|
        divisor_low(galaxy) <= divisor < divisor_end(galaxy) && to - from == #[trigger] star_count(
            width,
            height,
            divisor,
        )
    &&& forall|i: int| from <= i < to ==> field_star(#[trigger] elements[i], width, height)
}

/// Whether `cuts` part the elements from `from` up to `to` into clusters, as
/// many as the range that goes with `galaxy` allows.
pub open spec fn clusters_at(
    elements: Seq<Element>,
    cuts: Seq<int>,
    from: int,
    to: int,
    width: u32,
    height: u32,
    galaxy: bool,
) -> bool {
    &&& clusters_low(galaxy) <= cuts.len() - 1 < clusters_end(galaxy)
    &&& cuts[0] == from
    &&& cuts.last() == to
    &&& are_clusters(elements, cuts, width, height)
}

/// Whether the elements from `from` up to `to` are clusters, one after the
/// other.
pub open spec fn is_cluster_field(
    elements: Seq<Element>,
    from: int,
    to: int,
    width: u32,
    height: u32,
    galaxy: bool,
) -> bool {
    exists|cuts: Seq<int>| #[trigger] clusters_at(elements, cuts, from, to, width, height, galaxy)
}

/// Whether the elements from `from` up to `to` are the big stars: as many as
/// the range that goes with `galaxy` allows, each on a pixel of the surface.
pub open spec fn are_front_stars(
    elements: Seq<Element>,
    from: int,
    to: int,
    width: u32,
    height: u32,
    flares: bool,
    galaxy: bool,
) -> bool {
    &&& 0 <= from <= to <= elements.len()
    &&& closest_low(galaxy) <= to - from < closest_end(galaxy)
    &&& forall|i: int| from <= i < to ==> front_star(#[trigger] elements[i], flares, width, height)
}

/// The number of stars of the field for a divisor.
pub fn base_star_count(width: u32, height: u32, divisor: u32) -> (count: u64)
    requires
        divisor > 0,
    ensures
        count == star_count(width, height, divisor as int),
{
    assert(width * height <= 0xffff_ffff * 0xffff_ffff) by (nonlinear_arith)
        requires
            width <= 0xffff_ffff,
            height <= 0xffff_ffff,
    ;
    let area: u64 = width as u64 * height as u64;
    area / divisor as u64
}

/// On a surface with no side of zero the field has as many stars as the
/// divisor goes into the area, and none exactly where the area is less than
/// the divisor: so none where it is less than the least divisor.
pub proof fn lemma_empty_field(width: u32, height: u32, divisor: int, galaxy: bool)
    requires
        width > 0,
        height > 0,
        divisor_low(galaxy) <= divisor < divisor_end(galaxy),
    ensures
        star_count(width, height, divisor) >= 0,
        star_count(width, height, divisor) * divisor <= width * height < (star_count(
            width,
            height,
            divisor,
        ) + 1) * divisor,
        star_count(width, height, divisor) == 0 <==> width * height < divisor,
        width * height < divisor_low(galaxy) ==> star_count(width, height, divisor) == 0,
{
    let area = width * height;
    assert(area >= 0) by (nonlinear_arith)
        requires
            area == width * height,
    ;
    assert(area / divisor >= 0 && (area / divisor == 0 <==> area < divisor) && (area / divisor)
        * divisor <= area < (area / divisor + 1) * divisor) by (nonlinear_arith)
        requires
            area >= 0,
            divisor > 0,
    ;
}

/// Where the area is not one from the least divisor up to the divisor that
/// was sampled, the field has no star only if the area is less than the
/// least divisor.
pub proof fn lemma_empty_field_is_small(width: u32, height: u32, divisor: int, galaxy: bool)
    requires
        width > 0,
        height > 0,
        divisor_low(galaxy) <= divisor < divisor_end(galaxy),
        !(divisor_low(galaxy) <= width * height < divisor),
    ensures
        star_count(width, height, divisor) == 0 <==> width * height < divisor_low(galaxy),
{
    lemma_empty_field(width, height, divisor, galaxy);
}

/// Every element of a run of clusters is a small star.
pub proof fn lemma_clusters_hold_small_stars(
    elements: Seq<Element>,
    cuts: Seq<int>,
    width: u32,
    height: u32,
    i: int,
)
    requires
        cuts.len() >= 1,
        are_clusters(elements, cuts, width, height),
        cuts[0] <= i < cuts.last(),
    ensures
        0 <= i < elements.len(),
        elements[i] is SmallStar,
    decreases cuts.len(),
{
    let k = cuts.len() - 2;
    assert(cuts.len() >= 2);
    assert(is_cluster(elements, cuts[k], cuts[k + 1], width, height));
    if i >= cuts[k] {
        let (x, y, size) = choose|x: i64, y: i64, size: i64|
            #![trigger cluster_member(elements[cuts[k]], x, y, size)]
            {
                &&& on_pixel(x, width)
                &&& on_pixel(y, height)
                &&& CLUSTER_LOW <= size < CLUSTER_END
                &&& forall|i: int|
                    cuts[k] <= i < cuts[k + 1] ==> cluster_member(
                        #[trigger] elements[i],
                        x,
                        y,
                        size,
                    )
            };
        assert(cluster_member(elements[i], x, y, size));
    } else {
        let earlier = cuts.drop_last();
        assert forall|j: int| 0 <= j < earlier.len() - 1 implies is_cluster(
            elements,
            #[trigger] earlier[j],
            earlier[j + 1],
            width,
            height,
        ) by {
            assert(is_cluster(elements, cuts[j], cuts[j + 1], width, height));
        }
        lemma_clusters_hold_small_stars(elements, earlier, width, height, i);
    }
}

/// A cluster stays one when elements are added after it.
pub proof fn lemma_cluster_stays(
    before: Seq<Element>,
    after: Seq<Element>,
    from: int,
    to: int,
    width: u32,
    height: u32,
)
    requires
        is_cluster(before, from, to, width, height),
        extends(after, before),
    ensures
        is_cluster(after, from, to, width, height),
{
    let (x, y, size) = choose|x: i64, y: i64, size: i64|
        #![trigger cluster_member(before[from], x, y, size)]
        {
            &&& on_pixel(x, width)
            &&& on_pixel(y, height)
            &&& CLUSTER_LOW <= size < CLUSTER_END
            &&& forall|i: int| from <= i < to ==> cluster_member(#[trigger] before[i], x, y, size)
        };
    assert forall|i: int| from <= i < to implies cluster_member(
        #[trigger] after[i],
        x,
        y,
        size,
    ) by {
        assert(after[i] == before[i]);
    }
    assert(cluster_member(after[from], x, y, size));
}

/// A star field stays one when elements are added after it.
pub proof fn lemma_star_field_stays(
    before: Seq<Element>,
    after: Seq<Element>,
    from: int,
    to: int,
    width: u32,
    height: u32,
    galaxy: bool,
)
    requires
        is_star_field(before, from, to, width, height, galaxy),
        extends(after, before),
    ensures
        is_star_field(after, from, to, width, height, galaxy),
{
    assert forall|i: int| from <= i < to implies field_star(#[trigger] after[i], width, height) by {
        assert(after[i] == before[i]);
    }
}

/// Clusters stay clusters when elements are added after them.
pub proof fn lemma_cluster_field_stays(
    before: Seq<Element>,
    after: Seq<Element>,
    from: int,
    to: int,
    width: u32,
    height: u32,
    galaxy: bool,
)
    requires
        is_cluster_field(before, from, to, width, height, galaxy),
        extends(after, before),
    ensures
        is_cluster_field(after, from, to, width, height, galaxy),
{
    let cuts = choose|cuts: Seq<int>| #[trigger]
        clusters_at(before, cuts, from, to, width, height, galaxy);
    assert forall|k: int| 0 <= k < cuts.len() - 1 implies is_cluster(
        after,
        #[trigger] cuts[k],
        cuts[k + 1],
        width,
        height,
    ) by {
        lemma_cluster_stays(before, after, cuts[k], cuts[k + 1], width, height);
    }
    assert(clusters_at(after, cuts, from, to, width, height, galaxy));
}

/// The big stars stay what they are when elements are added after them.
pub proof fn lemma_front_stars_stay(
    before: Seq<Element>,
    after: Seq<Element>,
    from: int,
    to: int,
    width: u32,
    height: u32,
    flares: bool,
    galaxy: bool,
)
    requires
        are_front_stars(before, from, to, width, height, flares, galaxy),
        extends(after, before),
    ensures
        are_front_stars(after, from, to, width, height, flares, galaxy),
{
    assert forall|i: int| from <= i < to implies front_star(
        #[trigger] after[i],
        flares,
        width,
        height,
    ) by {
        assert(after[i] == before[i]);
    }
}

/// Spreads small stars over the whole surface: one to every `d` pixels of
/// its area, for a `d` sampled once, each on a pixel sampled for it.
pub fn generate_base_stars(global_width: u32, global_height: u32, ctx: &mut NightContext)
    ensures
        final(ctx).keeps(*old(ctx)),
        extends(final(ctx).canvas.elements@, old(ctx).canvas.elements@),
        old(ctx).canvas.drawable() ==> final(ctx).canvas.drawable(),
        is_star_field(
            final(ctx).canvas.elements@,
            old(ctx).canvas.elements@.len() as int,
            final(ctx).canvas.elements@.len() as int,
            global_width,
            global_height,
            old(ctx).galaxy,
        ),
{
    let divisor = if ctx.galaxy {
        sample_u32(&mut ctx.rng, 500, 1500)
    } else {
        sample_u32(&mut ctx.rng, 300, 900)
    };
    let count = base_star_count(global_width, global_height, divisor);
    let mut drawn: u64 = 0;
    while drawn < count
        invariant
            drawn <= count,
            divisor > 0,
            count == star_count(global_width, global_height, divisor as int),
            ctx.keeps(*old(ctx)),
            extends(ctx.canvas.elements@, old(ctx).canvas.elements@),
            ctx.canvas.elements@.len() == old(ctx).canvas.elements@.len() + drawn,
            forall|i: int|
                old(ctx).canvas.elements@.len() <= i < ctx.canvas.elements@.len() ==> field_star(
                    #[trigger] ctx.canvas.elements@[i],
                    global_width,
                    global_height,
                ),
            old(ctx).canvas.drawable() ==> ctx.canvas.drawable(),
        decreases count - drawn,
    {
        assert(global_width > 0 && global_height > 0) by (nonlinear_arith)
            requires
                global_width * global_height / (divisor as int) > 0,
                divisor > 0,
        ;
        let x = sample_u32(&mut ctx.rng, 0, global_width);
        let y = sample_u32(&mut ctx.rng, 0, global_height);
        let p = Point { kind: PointKind::Small, x: x as i64 * MILLI, y: y as i64 * MILLI };
        let ghost before = ctx.canvas.elements@;
        p.draw(ctx);
        proof {
            lemma_one_more(before, ctx.canvas.elements@);
            assert(on_pixel(p.x, global_width) && on_pixel(p.y, global_height));
            assert(field_star(
                ctx.canvas.elements@[before.len() as int],
                global_width,
                global_height,
            ));
        }
        drawn = drawn + 1;
    }
}

/// Draws `members` small stars round `center`, each moved on both axes by
/// an offset sampled from `-size..size`.
pub fn scatter_cluster(center: Point, size: i64, members: u32, ctx: &mut NightContext)
    requires
        center.in_reach(),
        0 < size <= REACH,
    ensures
        final(ctx).keeps(*old(ctx)),
        extends(final(ctx).canvas.elements@, old(ctx).canvas.elements@),
        final(ctx).canvas.elements@.len() == old(ctx).canvas.elements@.len() + members,
        forall|i: int|
            old(ctx).canvas.elements@.len() <= i < final(ctx).canvas.elements@.len()
                ==> cluster_member(
                #[trigger] final(ctx).canvas.elements@[i],
                center.x,
                center.y,
                size,
            ),
        old(ctx).canvas.drawable() ==> final(ctx).canvas.drawable(),
{
    let mut drawn: u32 = 0;
    while drawn < members
        invariant
            drawn <= members,
            center.in_reach(),
            0 < size <= REACH,
            ctx.keeps(*old(ctx)),
            extends(ctx.canvas.elements@, old(ctx).canvas.elements@),
            ctx.canvas.elements@.len() == old(ctx).canvas.elements@.len() + drawn,
            forall|i: int|
                old(ctx).canvas.elements@.len() <= i < ctx.canvas.elements@.len()
                    ==> cluster_member(
                    #[trigger] ctx.canvas.elements@[i],
                    center.x,
                    center.y,
                    size,
                ),
            old(ctx).canvas.drawable() ==> ctx.canvas.drawable(),
        decreases members - drawn,
    {
        let dx = random_range(&mut ctx.rng, -size, size);
        let dy = random_range(&mut ctx.rng, -size, size);
        let p = Point { kind: PointKind::Small, x: center.x + dx, y: center.y + dy };
        let ghost before = ctx.canvas.elements@;
        p.draw(ctx);
        proof {
            lemma_one_more(before, ctx.canvas.elements@);
            assert(cluster_member(
                ctx.canvas.elements@[before.len() as int],
                center.x,
                center.y,
                size,
            ));
        }
        drawn = drawn + 1;
    }
}

/// Draws the clusters: for each of a sampled number of them a centre on a
/// pixel of the surface, a size, and as many members as a sample from
/// `MEMBERS_LOW..MEMBERS_END` less `SKIPPED`. On a surface with a side of
/// zero there is no pixel to sample, and nothing is drawn.
pub fn generate_cluster_stars(
    global_width: u32,
    global_height: u32,
    ctx: &mut NightContext,
) -> (done: Result<(), NightError>)
    ensures
        final(ctx).keeps(*old(ctx)),
        extends(final(ctx).canvas.elements@, old(ctx).canvas.elements@),
        old(ctx).canvas.drawable() ==> final(ctx).canvas.drawable(),
        done is Err <==> global_width == 0 || global_height == 0,
        done is Err ==> done == Err::<(), NightError>(NightError::DegenerateSurface)
            && final(ctx).canvas.elements@ == old(ctx).canvas.elements@,
        done is Ok ==> is_cluster_field(
            final(ctx).canvas.elements@,
            old(ctx).canvas.elements@.len() as int,
            final(ctx).canvas.elements@.len() as int,
            global_width,
            global_height,
            old(ctx).galaxy,
        ),
{
    if global_width == 0 || global_height == 0 {
        return Err(NightError::DegenerateSurface);
    }
    let clusters = if ctx.galaxy {
        sample_u32(&mut ctx.rng, 6, 20)
    } else {
        sample_u32(&mut ctx.rng, 15, 40)
    };
    let ghost mut cuts: Seq<int> = seq![ctx.canvas.elements@.len() as int];
    let mut drawn: u32 = 0;
    while drawn < clusters
        invariant
            drawn <= clusters,
            global_width > 0,
            global_height > 0,
            ctx.keeps(*old(ctx)),
            extends(ctx.canvas.elements@, old(ctx).canvas.elements@),
            old(ctx).canvas.drawable() ==> ctx.canvas.drawable(),
            cuts.len() == drawn + 1,
            cuts[0] == old(ctx).canvas.elements@.len(),
            cuts.last() == ctx.canvas.elements@.len(),
            are_clusters(ctx.canvas.elements@, cuts, global_width, global_height),
        decreases clusters - drawn,
    {
        let x = sample_u32(&mut ctx.rng, 0, global_width);
        let y = sample_u32(&mut ctx.rng, 0, global_height);
        let center = Point { kind: PointKind::Small, x: x as i64 * MILLI, y: y as i64 * MILLI };
        let size = random_range(&mut ctx.rng, CLUSTER_LOW, CLUSTER_END);
        let sampled = sample_u32(&mut ctx.rng, MEMBERS_LOW, MEMBERS_END);
        let ghost before = ctx.canvas.elements@;
        let ghost earlier = cuts;
        scatter_cluster(center, size, sampled - SKIPPED, ctx);
        proof {
            let after = ctx.canvas.elements@;
            cuts = earlier.push(after.len() as int);
            assert(on_pixel(center.x, global_width) && on_pixel(center.y, global_height));
            assert(cluster_member(after[before.len() as int], center.x, center.y, size));
            assert(is_cluster(
                after,
                before.len() as int,
                after.len() as int,
                global_width,
                global_height,
            ));
            assert forall|k: int| 0 <= k < cuts.len() - 1 implies is_cluster(
                after,
                #[trigger] cuts[k],
                cuts[k + 1],
                global_width,
                global_height,
            ) by {
                if k < earlier.len() - 1 {
                    assert(is_cluster(
                        before,
                        earlier[k],
                        earlier[k + 1],
                        global_width,
                        global_height,
                    ));
                    lemma_cluster_stays(
                        before,
                        after,
                        cuts[k],
                        cuts[k + 1],
                        global_width,
                        global_height,
                    );
                }
            }
        }
        drawn = drawn + 1;
    }
    assert(clusters_at(
        ctx.canvas.elements@,
        cuts,
        old(ctx).canvas.elements@.len() as int,
        ctx.canvas.elements@.len() as int,
        global_width,
        global_height,
        old(ctx).galaxy,
    ));
    Ok(())
}

/// Draws a sampled number of big stars, each on a pixel sampled for it. On
/// a surface with a side of zero there is no pixel to sample, and nothing is
/// drawn.
pub fn generate_closest_stars(
    global_width: u32,
    global_height: u32,
    ctx: &mut NightContext,
) -> (done: Result<(), NightError>)
    ensures
        final(ctx).keeps(*old(ctx)),
        extends(final(ctx).canvas.elements@, old(ctx).canvas.elements@),
        old(ctx).canvas.drawable() ==> final(ctx).canvas.drawable(),
        done is Err <==> global_width == 0 || global_height == 0,
        done is Err ==> done == Err::<(), NightError>(NightError::DegenerateSurface)
            && final(ctx).canvas.elements@ == old(ctx).canvas.elements@,
        done is Ok ==> are_front_stars(
            final(ctx).canvas.elements@,
            old(ctx).canvas.elements@.len() as int,
            final(ctx).canvas.elements@.len() as int,
            global_width,
            global_height,
            old(ctx).lens.flares(),
            old(ctx).galaxy,
        ),
{
    if global_width == 0 || global_height == 0 {
        return Err(NightError::DegenerateSurface);
    }
    let stars = if ctx.galaxy {
        sample_u32(&mut ctx.rng, 8, 20)
    } else {
        sample_u32(&mut ctx.rng, 10, 40)
    };
    let mut drawn: u32 = 0;
    while drawn < stars
        invariant
            drawn <= stars,
            global_width > 0,
            global_height > 0,
            ctx.keeps(*old(ctx)),
            extends(ctx.canvas.elements@, old(ctx).canvas.elements@),
            old(ctx).canvas.drawable() ==> ctx.canvas.drawable(),
            ctx.canvas.elements@.len() == old(ctx).canvas.elements@.len() + drawn,
            forall|i: int|
                old(ctx).canvas.elements@.len() <= i < ctx.canvas.elements@.len() ==> front_star(
                    #[trigger] ctx.canvas.elements@[i],
                    old(ctx).lens.flares(),
                    global_width,
                    global_height,
                ),
        decreases stars - drawn,
    {
        let x = sample_u32(&mut ctx.rng, 0, global_width);
        let y = sample_u32(&mut ctx.rng, 0, global_height);
        let p = Point { kind: PointKind::Big, x: x as i64 * MILLI, y: y as i64 * MILLI };
        let ghost before = ctx.canvas.elements@;
        p.draw(ctx);
        proof {
            lemma_one_more(before, ctx.canvas.elements@);
            assert(on_pixel(p.x, global_width) && on_pixel(p.y, global_height));
            assert(big_star_at(
                ctx.canvas.elements@[before.len() as int],
                old(ctx).lens.flares(),
                p.x,
                p.y,
            ));
        }
        drawn = drawn + 1;
    }
    Ok(())
}

} // verus!
