//! The ways in which a surface can be unfit for a scene.

use vstd::prelude::*;

verus! {

/// Why nothing was drawn.
#[derive(Clone, Copy, Debug, PartialEq, Eq, Structural)]
pub enum NightError {
    /// A range to sample from is empty: a side of the surface is zero, or the
    /// surface is too low for a haze square that its width asks for.
    DegenerateSurface,
    /// The pixel buffer of the surface would be longer than the machine can
    /// address.
    SurfaceTooLarge,
}

} // verus!
