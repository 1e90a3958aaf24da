//! A procedural night sky: a noisy background wash, a galaxy band, layered star
//! fields, foreground stars with lens flares and soft clouds, planned as a list
//! of scene elements and lowered to canvas operations.
//!
//! Every length and coordinate is an integer count of thousandths of a pixel,
//! every opacity an integer count of millionths.

pub mod background;
pub mod canvas;
pub mod cloud;
pub mod color;
pub mod context;
pub mod element;
pub mod error;
pub mod galaxy;
pub mod glow;
pub mod ops;
pub mod point;
pub mod random;
pub mod scene;
pub mod stars;

use crate::canvas::{scene_ops, Canvas};
use crate::context::get_context;
use crate::error::NightError;
use crate::glow::glow_contained;
use crate::scene::{generate_scene, is_scene, lemma_scene_glow};
use vstd::prelude::*;

verus! {

/// Plans the night sky of a surface of the given size, with flares, a galaxy
/// band and clouds: the canvas holds the noise of the background and every
/// element of the scene, in the order in which they are to be drawn, and no
/// operation of the scene paints under a glow that another element lit. A
/// surface that is unfit for the background gets no scene.
pub fn run(global_width: u32, global_height: u32) -> (sky: Result<Canvas, NightError>)
    ensures
        sky == Err::<Canvas, NightError>(NightError::DegenerateSurface)
            <==> !background::sound_surface(global_width, global_height),
        sky == Err::<Canvas, NightError>(NightError::SurfaceTooLarge)
            <==> background::sound_surface(global_width, global_height) && 4 * global_width
            * global_height > usize::MAX,
        sky matches Ok(canvas) ==> {
            &&& canvas.width == global_width
            &&& canvas.height == global_height
            &&& canvas.drawable()
            &&& background::is_noise(canvas.pixels@, global_width, global_height)
            &&& is_scene(canvas.elements@, 0, global_width, global_height, true, true, true)
            &&& glow_contained(scene_ops(canvas.elements@))
        },
{
    let mut ctx = get_context(global_width, global_height);
    match generate_scene(global_width, global_height, &mut ctx) {
        Ok(()) => {
            proof {
                lemma_scene_glow(
                    ctx.canvas.elements@,
                    global_width,
                    global_height,
                    true,
                    true,
                    true,
                );
            }
            Ok(ctx.canvas)
        },
        Err(e) => Err(e),
    }
}

} // verus!
