//! The glow of a surface while a list of operations is drawn, and the law
//! that no element of a scene is drawn under a glow that another one lit.

use crate::canvas::scene_ops;
use crate::color::Color;
use crate::element::{band_strokes, cloud_ops, small_star_ops, Curve, Element};
use crate::ops::CanvasOp;
use vstd::prelude::*;

verus! {

/// What a surface knows of its glow: the blur radius in effect, whether it
/// was set since the last paint, and the radii that were saved.
pub struct Glow {
    pub blur: int,
    pub own: bool,
    pub saved: Seq<int>,
}

/// The glow of a surface on which nothing was drawn.
pub open spec fn fresh() -> Glow {
    Glow { blur: 0, own: false, saved: Seq::empty() }
}

/// The glow after one operation: setting the blur makes it one's own, paint
/// uses it up, saving and restoring do what they say.
pub open spec fn glow_step(glow: Glow, op: CanvasOp) -> Glow {
    match op {
        CanvasOp::SetShadowBlur { blur } => Glow {
            blur: blur as int,
            own: true,
            saved: glow.saved,
        },
        CanvasOp::Save => Glow {
            blur: glow.blur,
            own: glow.own,
            saved: glow.saved.push(glow.blur),
        },
        CanvasOp::Restore => if glow.saved.len() > 0 {
            Glow { blur: glow.saved.last(), own: false, saved: glow.saved.drop_last() }
        } else {
            glow
        },
        _ => if op.paints() {
            Glow { blur: glow.blur, own: false, saved: glow.saved }
        } else {
            glow
        },
    }
}

/// The glow before operation `i` of a list, on a surface whose glow was
/// `start`.
pub open spec fn glow_before(ops: Seq<CanvasOp>, i: int, start: Glow) -> Glow
    decreases i,
{
    if i <= 0 {
        start
    } else {
        glow_step(glow_before(ops, i - 1, start), ops[i - 1])
    }
}

/// The glow after a whole list.
pub open spec fn glow_after(ops: Seq<CanvasOp>, start: Glow) -> Glow {
    glow_before(ops, ops.len() as int, start)
}

/// Whether there is no glow, in effect or saved.
pub open spec fn dark(glow: Glow) -> bool {
    glow.blur == 0 && forall|k: int| 0 <= k < glow.saved.len() ==> glow.saved[k] == 0
}

/// Whether operation `i` paints under a glow that was lit before the paint
/// before it.
pub open spec fn inherits_glow(ops: Seq<CanvasOp>, i: int, start: Glow) -> bool {
    ops[i].paints() && glow_before(ops, i, start).blur != 0 && !glow_before(ops, i, start).own
}

/// Whether no operation of the list inherits a glow.
pub open spec fn contained_from(ops: Seq<CanvasOp>, start: Glow) -> bool {
    forall|i: int| 0 <= i < ops.len() ==> !#[trigger] inherits_glow(ops, i, start)
}

/// Whether no operation of the list inherits a glow on a surface on which
/// nothing was drawn before.
pub open spec fn glow_contained(ops: Seq<CanvasOp>) -> bool {
    contained_from(ops, fresh())
}

/// Whether every cloud of the list comes after everything that is no cloud.
pub open spec fn clouds_last(elements: Seq<Element>) -> bool {
    forall|i: int, j: int|
        0 <= i < j < elements.len() && (#[trigger] elements[i]) is Cloud ==> (
        #[trigger] elements[j]) is Cloud
}

/// Whether the list has no cloud.
pub open spec fn cloudless(elements: Seq<Element>) -> bool {
    forall|i: int| 0 <= i < elements.len() ==> !((#[trigger] elements[i]) is Cloud)
}

/// The glow within the first of two lists is that of the first alone.
pub proof fn lemma_glow_in_first(a: Seq<CanvasOp>, b: Seq<CanvasOp>, i: int, start: Glow)
    requires
        0 <= i <= a.len(),
    ensures
        glow_before(a + b, i, start) == glow_before(a, i, start),
    decreases i,
{
    if i > 0 {
        lemma_glow_in_first(a, b, i - 1, start);
        assert((a + b)[i - 1] == a[i - 1]);
    }
}

/// The glow within the second of two lists is that of the second alone,
/// begun with the glow that the first leaves.
pub proof fn lemma_glow_in_second(a: Seq<CanvasOp>, b: Seq<CanvasOp>, j: int, start: Glow)
    requires
        0 <= j <= b.len(),
    ensures
        glow_before(a + b, a.len() + j, start) == glow_before(b, j, glow_after(a, start)),
    decreases j,
{
    if j > 0 {
        lemma_glow_in_second(a, b, j - 1, start);
        assert((a + b)[a.len() + j - 1] == b[j - 1]);
    } else {
        lemma_glow_in_first(a, b, a.len() as int, start);
    }
}

/// Two lists that each contain their glow contain it end to end.
pub proof fn lemma_contained_together(a: Seq<CanvasOp>, b: Seq<CanvasOp>, start: Glow)
    requires
        contained_from(a, start),
        contained_from(b, glow_after(a, start)),
    ensures
        contained_from(a + b, start),
        glow_after(a + b, start) == glow_after(b, glow_after(a, start)),
{
    assert forall|i: int| 0 <= i < (a + b).len() implies !#[trigger] inherits_glow(
        a + b,
        i,
        start,
    ) by {
        if i < a.len() {
            lemma_glow_in_first(a, b, i, start);
            assert(!inherits_glow(a, i, start));
        } else {
            lemma_glow_in_second(a, b, i - a.len(), start);
            assert(!inherits_glow(b, i - a.len(), glow_after(a, start)));
        }
    }
    lemma_glow_in_second(a, b, b.len() as int, start);
}

/// Where no operation sets the blur, the dark stays dark.
pub proof fn lemma_stays_dark(ops: Seq<CanvasOp>, i: int, start: Glow)
    requires
        dark(start),
        0 <= i <= ops.len(),
        forall|k: int| 0 <= k < ops.len() ==> !((#[trigger] ops[k]) is SetShadowBlur),
    ensures
        dark(glow_before(ops, i, start)),
    decreases i,
{
    if i > 0 {
        lemma_stays_dark(ops, i - 1, start);
        assert(!(ops[i - 1] is SetShadowBlur));
    }
}

/// No stroke of a band sets the blur.
pub proof fn lemma_strokes_set_no_blur(x1: i64, y1: i64, x2: i64, y2: i64, n: nat)
    ensures
        band_strokes(x1, y1, x2, y2, n).len() == 5 * n,
        forall|k: int|
            0 <= k < band_strokes(x1, y1, x2, y2, n).len() ==> !((#[trigger] band_strokes(
                x1,
                y1,
                x2,
                y2,
                n,
            )[k]) is SetShadowBlur),
    decreases n,
{
    if n > 0 {
        lemma_strokes_set_no_blur(x1, y1, x2, y2, (n - 1) as nat);
    }
}

/// Whether the recipe of the element sets the blur: only a small star and a
/// cloud have a glow of their own.
pub open spec fn lights(element: Element) -> bool {
    element is SmallStar || element is Cloud
}

/// The recipe of an element without a glow of its own never sets the blur.
pub proof fn lemma_plain_recipe(element: Element)
    requires
        !lights(element),
    ensures
        forall|k: int|
            0 <= k < element.recipe().len() ==> !((
            #[trigger] element.recipe()[k]) is SetShadowBlur),
{
    match element {
        Element::Band { x1, y1, x2, y2, color } => {
            lemma_strokes_set_no_blur(x1, y1, x2, y2, 20);
        },
        _ => {},
    }
}

/// A small star is drawn under its own glow, and the blur is back at zero
/// straight after its square, whatever the glow was before.
pub proof fn lemma_small_star_puts_glow_out(x: i64, y: i64, side: i64, color: Color, start: Glow)
    ensures
        small_star_ops(x, y, side, color)[3].paints(),
        small_star_ops(x, y, side, color)[4] == (CanvasOp::SetShadowBlur { blur: 0 }),
        contained_from(small_star_ops(x, y, side, color), start),
        glow_after(small_star_ops(x, y, side, color), start).blur == 0,
        glow_after(small_star_ops(x, y, side, color), start).saved == start.saved,
{
    let ops = small_star_ops(x, y, side, color);
    reveal_with_fuel(glow_before, 6);
    assert forall|i: int| 0 <= i < ops.len() implies !#[trigger] inherits_glow(ops, i, start) by {
        if i == 3 {
            assert(glow_before(ops, 3, start).own);
        }
    }
}

/// A cloud is drawn under its own glow, whatever the glow was before.
pub proof fn lemma_cloud_lights_itself(
    x: i64,
    y: i64,
    first: Curve,
    second: Option<Curve>,
    close_x: i64,
    close_y: i64,
    color: Color,
    start: Glow,
)
    ensures
        contained_from(cloud_ops(x, y, first, second, close_x, close_y, color), start),
{
    let ops = cloud_ops(x, y, first, second, close_x, close_y, color);
    reveal_with_fuel(glow_before, 12);
    assert forall|i: int| 0 <= i < ops.len() implies !#[trigger] inherits_glow(ops, i, start) by {
        if ops[i].paints() {
            assert(i == ops.len() - 1);
            assert(glow_before(ops, i, start).own);
        }
    }
}

/// Without clouds the surface is dark after every element, and no operation
/// inherits a glow.
pub proof fn lemma_cloudless_is_dark(elements: Seq<Element>)
    requires
        cloudless(elements),
    ensures
        glow_contained(scene_ops(elements)),
        dark(glow_after(scene_ops(elements), fresh())),
    decreases elements.len(),
{
    if elements.len() > 0 {
        let earlier = elements.drop_last();
        let last = elements.last();
        lemma_cloudless_is_dark(earlier);
        let before = glow_after(scene_ops(earlier), fresh());
        let recipe = last.recipe();
        assert(!(last is Cloud));
        match last {
            Element::SmallStar { x, y, side, color } => {
                lemma_small_star_puts_glow_out(x, y, side, color, before);
            },
            _ => {
                lemma_plain_recipe(last);
                assert forall|i: int| 0 <= i < recipe.len() implies !#[trigger] inherits_glow(
                    recipe,
                    i,
                    before,
                ) by {
                    lemma_stays_dark(recipe, i, before);
                }
                lemma_stays_dark(recipe, recipe.len() as int, before);
            },
        }
        lemma_contained_together(scene_ops(earlier), recipe, fresh());
    }
}

/// Where the clouds come last, no operation of the scene paints under a glow
/// that it has not lit itself: every element that has a glow sets the blur
/// before it paints, and no other is drawn while a glow is on.
pub proof fn lemma_scene_contains_glow(elements: Seq<Element>)
    requires
        clouds_last(elements),
    ensures
        glow_contained(scene_ops(elements)),
    decreases elements.len(),
{
    if elements.len() > 0 {
        let earlier = elements.drop_last();
        let last = elements.last();
        match last {
            Element::Cloud { x, y, first, second, close_x, close_y, color } => {
                assert(clouds_last(earlier)) by {
                    assert forall|i: int, j: int|
                        0 <= i < j < earlier.len() && (#[trigger] earlier[i]) is Cloud implies (
                    #[trigger] earlier[j]) is Cloud by {
                        assert(elements[i] is Cloud);
                        assert(elements[j] is Cloud);
                    }
                }
                lemma_scene_contains_glow(earlier);
                lemma_cloud_lights_itself(
                    x,
                    y,
                    first,
                    second,
                    close_x,
                    close_y,
                    color,
                    glow_after(scene_ops(earlier), fresh()),
                );
                lemma_contained_together(scene_ops(earlier), last.recipe(), fresh());
            },
            _ => {
                assert(cloudless(elements)) by {
                    assert forall|i: int| 0 <= i < elements.len() implies !((
                    #[trigger] elements[i]) is Cloud) by {
                        if i < elements.len() - 1 && elements[i] is Cloud {
                            assert(elements[elements.len() - 1] is Cloud);
                        }
                    }
                }
                lemma_cloudless_is_dark(elements);
            },
        }
    }
}

} // verus!
