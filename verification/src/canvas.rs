//! The surface, as the record of what was drawn on it.

use crate::element::Element;
use crate::ops::CanvasOp;
use vstd::prelude::*;

verus! {

/// A surface of `width` by `height` pixels and what was drawn on it: the
/// pixel buffer that `Element::Noise` writes, four bytes to the pixel, row by
/// row, and the elements in the order in which they were drawn.
#[derive(Debug)]
pub struct Canvas {
    pub width: u32,
    pub height: u32,
    pub pixels: Vec<u8>,
    pub elements: Vec<Element>,
}

/// Whether `after` is `before` with elements added at its end.
pub open spec fn extends(after: Seq<Element>, before: Seq<Element>) -> bool {
    before.len() <= after.len() && forall|i: int| 0 <= i < before.len() ==> after[i] == before[i]
}

/// The operations that draw a list of elements: the recipes, end to end.
pub open spec fn scene_ops(elements: Seq<Element>) -> Seq<CanvasOp>
    decreases elements.len(),
{
    if elements.len() == 0 {
        Seq::empty()
    } else {
        scene_ops(elements.drop_last()) + elements.last().recipe()
    }
}

/// A list with one element more than another extends it.
pub proof fn lemma_one_more(before: Seq<Element>, after: Seq<Element>)
    requires
        after.len() == before.len() + 1,
        after.drop_last() == before,
    ensures
        extends(after, before),
        after[before.len() as int] == after.last(),
{
    assert forall|i: int| 0 <= i < before.len() implies after[i] == before[i] by {
        assert(after.drop_last()[i] == after[i]);
    }
}

/// Extending is transitive.
pub proof fn lemma_extends_twice(first: Seq<Element>, second: Seq<Element>, third: Seq<Element>)
    requires
        extends(second, first),
        extends(third, second),
    ensures
        extends(third, first),
{
    assert forall|i: int| 0 <= i < first.len() implies third[i] == first[i] by {
        assert(second[i] == first[i]);
    }
}

impl Canvas {
    /// Whether every element can be drawn.
    pub open spec fn drawable(&self) -> bool {
        forall|i: int| 0 <= i < self.elements@.len() ==> (#[trigger] self.elements@[i]).drawable()
    }

    /// Whether this is the surface `before`, with the same pixel buffer.
    pub open spec fn same_surface(&self, before: Canvas) -> bool {
        self.width == before.width && self.height == before.height && self.pixels == before.pixels
    }

    /// A blank surface.
    pub fn new(width: u32, height: u32) -> (canvas: Canvas)
        ensures
            canvas.width == width,
            canvas.height == height,
            canvas.pixels@.len() == 0,
            canvas.elements@.len() == 0,
    {
        Canvas { width, height, pixels: Vec::new(), elements: Vec::new() }
    }

    /// Whether `drawable` holds.
    pub fn is_drawable(&self) -> (ok: bool)
        ensures
            ok == self.drawable(),
    {
        let mut i: usize = 0;
        while i < self.elements.len()
            invariant
                i <= self.elements@.len(),
                forall|j: int| 0 <= j < i ==> (#[trigger] self.elements@[j]).drawable(),
            decreases self.elements@.len() - i,
        {
            if !self.elements[i].is_drawable() {
                return false;
            }
            i = i + 1;
        }
        true
    }

    /// The operations that draw the scene, in order.
    pub fn ops(&self) -> (ops: Vec<CanvasOp>)
        requires
            self.drawable(),
        ensures
            ops@ == scene_ops(self.elements@),
    {
        let mut ops: Vec<CanvasOp> = Vec::new();
        let mut i: usize = 0;
        while i < self.elements.len()
            invariant
                i <= self.elements@.len(),
                self.drawable(),
                ops@ == scene_ops(self.elements@.take(i as int)),
            decreases self.elements@.len() - i,
        {
            assert(self.elements@.take(i + 1).drop_last() =~= self.elements@.take(i as int));
            self.elements[i].draw(&mut ops);
            i = i + 1;
        }
        assert(self.elements@.take(i as int) =~= self.elements@);
        ops
    }
}

} // verus!
