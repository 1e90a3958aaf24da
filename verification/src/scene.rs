//! The whole scene: the layers in their order.

use crate::background::{
    generate_background_color, haze_blend, is_background, is_noise, lemma_background_stays,
    sound_surface,
};
use crate::canvas::{extends, lemma_extends_twice, scene_ops};
use crate::cloud::{are_clouds, generate_clouds, is_cloud};
use crate::context::NightContext;
use crate::element::Element;
use crate::error::NightError;
use crate::galaxy::{
    band_dot, band_dots_under, generate_galaxy, is_galaxy, lemma_galaxy_stays,
};
use crate::glow::{clouds_last, glow_contained, lemma_scene_contains_glow};
use crate::stars::{
    are_front_stars, clusters_at, field_star, front_star, generate_base_stars,
    generate_closest_stars, generate_cluster_stars, is_cluster_field, is_star_field,
    lemma_cluster_field_stays, lemma_clusters_hold_small_stars, lemma_front_stars_stay,
    lemma_star_field_stays,
};
use vstd::prelude::*;

verus! {

/// The places where one layer of a scene ends and the next begins.
pub struct Cuts {
    pub background: int,
    pub galaxy: int,
    pub field: int,
    pub clusters: int,
    pub front: int,
}

/// Whether the elements from `from` on are the layers of a scene, parted at
/// `cuts`: the background, the galaxy where there is one, the star field,
/// the clusters, the big stars, and the clouds where there are any.
pub open spec fn scene_at(
    elements: Seq<Element>,
    from: int,
    cuts: Cuts,
    width: u32,
    height: u32,
    flares: bool,
    galaxy: bool,
    clouds: bool,
) -> bool {
    &&& is_background(elements, from, cuts.background, width, height)
    &&& if galaxy {
        is_galaxy(elements, cuts.background, cuts.galaxy, width, height)
    } else {
        cuts.galaxy == cuts.background
    }
    &&& is_star_field(elements, cuts.galaxy, cuts.field, width, height, galaxy)
    &&& is_cluster_field(elements, cuts.field, cuts.clusters, width, height, galaxy)
    &&& are_front_stars(elements, cuts.clusters, cuts.front, width, height, flares, galaxy)
    &&& if clouds {
        are_clouds(elements, cuts.front, elements.len() as int, width, height)
    } else {
        cuts.front == elements.len()
    }
}

/// Whether the elements from `from` on are the layers of a scene, in their
/// order.
pub open spec fn is_scene(
    elements: Seq<Element>,
    from: int,
    width: u32,
    height: u32,
    flares: bool,
    galaxy: bool,
    clouds: bool,
) -> bool {
    exists|cuts: Cuts| #[trigger]
        scene_at(elements, from, cuts, width, height, flares, galaxy, clouds)
}

/// In a scene every cloud comes after everything that is no cloud.
pub proof fn lemma_scene_ends_in_clouds(
    elements: Seq<Element>,
    width: u32,
    height: u32,
    flares: bool,
    galaxy: bool,
    clouds: bool,
)
    requires
        is_scene(elements, 0, width, height, flares, galaxy, clouds),
    ensures
        clouds_last(elements),
{
    let cuts = choose|cuts: Cuts| #[trigger]
        scene_at(elements, 0, cuts, width, height, flares, galaxy, clouds);
    assert forall|i: int| 0 <= i < cuts.front implies !((#[trigger] elements[i]) is Cloud) by {
        if i < cuts.background {
            if 2 <= i < cuts.background - 1 {
                assert(haze_blend(elements[i], i - 2, width, height));
            }
        } else if i < cuts.galaxy {
            if i > cuts.background {
                match elements[cuts.background] {
                    Element::Band { x1, y1, x2, y2, color } => {
                        let (length, reach) = choose|length: nat, reach: i64| #[trigger]
                            band_dots_under(
                                elements,
                                cuts.background,
                                cuts.galaxy,
                                x1,
                                y1,
                                x2,
                                y2,
                                length,
                                reach,
                            );
                        assert(band_dot(
                            elements[i],
                            i - cuts.background - 1,
                            cuts.galaxy - cuts.background - 1,
                            x1,
                            y1,
                            x2,
                            y2,
                            reach,
                        ));
                    },
                    _ => {},
                }
            }
        } else if i < cuts.field {
            assert(field_star(elements[i], width, height));
        } else if i < cuts.clusters {
            let parts = choose|parts: Seq<int>| #[trigger]
                clusters_at(elements, parts, cuts.field, cuts.clusters, width, height, galaxy);
            lemma_clusters_hold_small_stars(elements, parts, width, height, i);
        } else {
            assert(front_star(elements[i], flares, width, height));
        }
    }
    assert forall|i: int| cuts.front <= i < elements.len() implies (
    #[trigger] elements[i]) is Cloud by {
        assert(is_cloud(elements[i], width, height));
    }
}

/// No operation of a scene paints under a glow that it has not lit itself:
/// the blur that a small star sets is put out before anything else is drawn,
/// and nothing but another cloud follows a cloud.
pub proof fn lemma_scene_glow(
    elements: Seq<Element>,
    width: u32,
    height: u32,
    flares: bool,
    galaxy: bool,
    clouds: bool,
)
    requires
        is_scene(elements, 0, width, height, flares, galaxy, clouds),
    ensures
        glow_contained(scene_ops(elements)),
{
    lemma_scene_ends_in_clouds(elements, width, height, flares, galaxy, clouds);
    lemma_scene_contains_glow(elements);
}

/// Draws the scene, layer by layer: the background, the galaxy where the
/// context has one, the star field, the clusters, the big stars, and the
/// clouds where the context has them. Where the surface is unfit for the
/// background, nothing is drawn.
pub fn generate_scene(
    global_width: u32,
    global_height: u32,
    ctx: &mut NightContext,
) -> (done: Result<(), NightError>)
    ensures
        final(ctx).lens == old(ctx).lens,
        final(ctx).galaxy == old(ctx).galaxy,
        final(ctx).clouds == old(ctx).clouds,
        final(ctx).canvas.width == old(ctx).canvas.width,
        final(ctx).canvas.height == old(ctx).canvas.height,
        extends(final(ctx).canvas.elements@, old(ctx).canvas.elements@),
        old(ctx).canvas.drawable() ==> final(ctx).canvas.drawable(),
        done == Err::<(), NightError>(NightError::DegenerateSurface) <==> !sound_surface(
            global_width,
            global_height,
        ),
        done == Err::<(), NightError>(NightError::SurfaceTooLarge) <==> sound_surface(
            global_width,
            global_height,
        ) && 4 * global_width * global_height > usize::MAX,
        done is Err ==> final(ctx).canvas.elements@ == old(ctx).canvas.elements@
            && final(ctx).canvas.pixels == old(ctx).canvas.pixels,
        done is Ok ==> is_noise(final(ctx).canvas.pixels@, global_width, global_height),
        done is Ok ==> is_scene(
            final(ctx).canvas.elements@,
            old(ctx).canvas.elements@.len() as int,
            global_width,
            global_height,
            old(ctx).lens.flares(),
            old(ctx).galaxy,
            old(ctx).clouds,
        ),
{
    let ghost from = ctx.canvas.elements@.len() as int;
    match generate_background_color(global_width, global_height, ctx) {
        Ok(()) => {},
        Err(e) => {
            return Err(e);
        },
    }
    let ghost washed = ctx.canvas.elements@;
    if ctx.galaxy {
        let banded = generate_galaxy(global_width, global_height, ctx);
        assert(banded is Ok);
    }
    let ghost banded = ctx.canvas.elements@;
    generate_base_stars(global_width, global_height, ctx);
    let ghost strewn = ctx.canvas.elements@;
    let clustered = generate_cluster_stars(global_width, global_height, ctx);
    let ghost clustered = ctx.canvas.elements@;
    let fronted = generate_closest_stars(global_width, global_height, ctx);
    let ghost fronted = ctx.canvas.elements@;
    if ctx.clouds {
        let clouded = generate_clouds(global_width, global_height, ctx);
        assert(clouded is Ok);
    }
    proof {
        let whole = ctx.canvas.elements@;
        let flares = old(ctx).lens.flares();
        let galaxy = old(ctx).galaxy;
        let cuts = Cuts {
            background: washed.len() as int,
            galaxy: banded.len() as int,
            field: strewn.len() as int,
            clusters: clustered.len() as int,
            front: fronted.len() as int,
        };
        lemma_extends_twice(clustered, fronted, whole);
        lemma_extends_twice(strewn, clustered, whole);
        lemma_extends_twice(banded, strewn, whole);
        lemma_extends_twice(washed, banded, whole);
        lemma_extends_twice(old(ctx).canvas.elements@, washed, whole);
        lemma_background_stays(washed, whole, from, cuts.background, global_width, global_height);
        if galaxy {
            lemma_galaxy_stays(
                banded,
                whole,
                cuts.background,
                cuts.galaxy,
                global_width,
                global_height,
            );
        }
        lemma_star_field_stays(
            strewn,
            whole,
            cuts.galaxy,
            cuts.field,
            global_width,
            global_height,
            galaxy,
        );
        lemma_cluster_field_stays(
            clustered,
            whole,
            cuts.field,
            cuts.clusters,
            global_width,
            global_height,
            galaxy,
        );
        lemma_front_stars_stay(
            fronted,
            whole,
            cuts.clusters,
            cuts.front,
            global_width,
            global_height,
            flares,
            galaxy,
        );
        assert(scene_at(
            whole,
            from,
            cuts,
            global_width,
            global_height,
            flares,
            galaxy,
            old(ctx).clouds,
        ));
    }
    Ok(())
}

} // verus!
