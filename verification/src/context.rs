//! What every generator works on: the surface, the random source and the
//! choices that shape the scene.

use crate::canvas::Canvas;
use crate::random::thread_rng;
use rand::rngs::ThreadRng;
use vstd::prelude::*;

verus! {

/// The number of branches that makes a flare.
pub const FLARE_BRANCHES: u32 = 4;

/// The shape of a big star.
#[derive(Clone, Copy, Debug, PartialEq, Eq, Structural)]
pub enum LensEffect {
    /// A flare where the number is `FLARE_BRANCHES`, a round glow otherwise.
    Branch(u32),
}

impl LensEffect {
    /// Whether big stars are flares.
    pub open spec fn flares(self) -> bool {
        self == LensEffect::Branch(FLARE_BRANCHES)
    }

    /// Whether big stars are flares.
    pub fn has_flares(&self) -> (flares: bool)
        ensures
            flares == self.flares(),
    {
        match *self {
            LensEffect::Branch(branches) => branches == FLARE_BRANCHES,
        }
    }
}

/// The surface with the random source and the choices of the scene.
pub struct NightContext {
    pub canvas: Canvas,
    pub rng: ThreadRng,
    pub lens: LensEffect,
    /// Whether the scene has a galaxy band; its star fields are then thinner.
    pub galaxy: bool,
    /// Whether the scene has clouds.
    pub clouds: bool,
}

impl NightContext {
    /// Whether the surface and the choices are those of `before`: only the
    /// elements and the random source may differ.
    pub open spec fn keeps(&self, before: NightContext) -> bool {
        &&& self.canvas.same_surface(before.canvas)
        &&& self.lens == before.lens
        &&& self.galaxy == before.galaxy
        &&& self.clouds == before.clouds
    }
}

/// A blank surface of the given size with the thread's random source, for a
/// scene with flares, a galaxy band and clouds.
pub fn get_context(global_width: u32, global_height: u32) -> (ctx: NightContext)
    ensures
        ctx.canvas.width == global_width,
        ctx.canvas.height == global_height,
        ctx.canvas.pixels@.len() == 0,
        ctx.canvas.elements@.len() == 0,
        ctx.lens == LensEffect::Branch(FLARE_BRANCHES),
        ctx.galaxy,
        ctx.clouds,
{
    NightContext {
        canvas: Canvas::new(global_width, global_height),
        rng: thread_rng(),
        lens: LensEffect::Branch(FLARE_BRANCHES),
        galaxy: true,
        clouds: true,
    }
}

} // verus!
