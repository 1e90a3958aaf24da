//! The background: a buffer of dim noise, and the haze that blends the
//! surface into squares of itself.

use crate::canvas::extends;
use crate::context::NightContext;
use crate::element::Element;
use crate::error::NightError;
use crate::random::{sample_u32, sample_u8};
use rand::rngs::ThreadRng;
use vstd::prelude::*;

verus! {

/// The opacity byte of every pixel of the noise.
pub const ALPHA: u8 = 230;

/// The least ceiling of a channel of the noise.
pub const BASE_LOW: u8 = 10;

/// The bound on the ceiling of a channel of the noise.
pub const BASE_END: u8 = 80;

/// The side of the first haze square, in pixels.
pub const HAZE_START: u64 = 8;

/// The factor from one haze square to the next.
pub const HAZE_FACTOR: u64 = 4;

/// The side of haze square `k`, in pixels.
pub open spec fn haze_size(k: nat) -> nat
    decreases k,
{
    if k == 0 {
        HAZE_START as nat
    } else {
        HAZE_FACTOR as nat * haze_size((k - 1) as nat)
    }
}

/// Whether a surface `width` pixels wide gets exactly `count` haze squares:
/// those narrower than it.
pub open spec fn haze_count(count: nat, width: u32) -> bool {
    &&& forall|k: nat| k < count ==> #[trigger] haze_size(k) < width
    &&& haze_size(count) >= width
}

/// Whether every haze square that the width asks for is lower than the
/// surface, so that there is a place to sample for it.
pub open spec fn haze_fits(width: u32, height: u32) -> bool {
    forall|k: nat| #[trigger] haze_size(k) < width ==> haze_size(k) < height
}

/// Whether every range that the background samples from has something in it.
pub open spec fn sound_surface(width: u32, height: u32) -> bool {
    width > 0 && height > 0 && haze_fits(width, height)
}

/// Whether a byte of the noise fits its place: in each pixel red, green and
/// blue stay under their ceilings, and the fourth byte is `ALPHA`.
pub open spec fn noise_byte(byte: u8, place: int, red: u8, green: u8, blue: u8) -> bool {
    if place % 4 == 0 {
        byte < red
    } else if place % 4 == 1 {
        byte < green
    } else if place % 4 == 2 {
        byte < blue
    } else {
        byte == ALPHA
    }
}

/// Whether a buffer is noise under the three ceilings.
pub open spec fn noise_under(pixels: Seq<u8>, red: u8, green: u8, blue: u8) -> bool {
    forall|i: int| 0 <= i < pixels.len() ==> noise_byte(#[trigger] pixels[i], i, red, green, blue)
}

/// Whether a buffer is the noise of a surface: four bytes to the pixel, under
/// three ceilings from `BASE_LOW..BASE_END`.
pub open spec fn is_noise(pixels: Seq<u8>, width: u32, height: u32) -> bool {
    &&& pixels.len() == 4 * width * height
    &&& exists|red: u8, green: u8, blue: u8|
        {
            &&& BASE_LOW <= red < BASE_END
            &&& BASE_LOW <= green < BASE_END
            &&& BASE_LOW <= blue < BASE_END
            &&& #[trigger] noise_under(pixels, red, green, blue)
        }
}

/// Whether the element is haze blend `k` of the surface: its square is square
/// `k`, and lies where both coordinates leave more than its side.
pub open spec fn haze_blend(element: Element, k: int, width: u32, height: u32) -> bool {
    &&& element matches Element::HazeBlend { left, top, size, width: of_width, height: of_height }
    &&& k >= 0
    &&& size == haze_size(k as nat)
    &&& left < width - size
    &&& top < height - size
    &&& of_width == width
    &&& of_height == height
}

/// Whether the elements from `from` up to `to` are a background: the noise,
/// then the haze blends that the width asks for, between their two marks.
pub open spec fn is_background(
    elements: Seq<Element>,
    from: int,
    to: int,
    width: u32,
    height: u32,
) -> bool {
    &&& 0 <= from
    &&& from + 3 <= to <= elements.len()
    &&& elements[from] == Element::Noise
    &&& elements[from + 1] == Element::HazeOpen
    &&& elements[to - 1] == Element::HazeClose
    &&& haze_count((to - from - 3) as nat, width)
    &&& forall|i: int|
        from + 2 <= i < to - 1 ==> haze_blend(#[trigger] elements[i], i - (from + 2), width, height)
}

/// Haze squares grow.
pub proof fn lemma_haze_grows(j: nat, k: nat)
    requires
        j <= k,
    ensures
        HAZE_START <= haze_size(j) <= haze_size(k),
    decreases k,
{
    if k > 0 {
        if j < k {
            lemma_haze_grows(j, (k - 1) as nat);
        } else {
            lemma_haze_grows((j - 1) as nat, (k - 1) as nat);
        }
    }
}

/// A background stays one when elements are added after it.
pub proof fn lemma_background_stays(
    before: Seq<Element>,
    after: Seq<Element>,
    from: int,
    to: int,
    width: u32,
    height: u32,
)
    requires
        is_background(before, from, to, width, height),
        extends(after, before),
    ensures
        is_background(after, from, to, width, height),
{
    assert forall|i: int| from + 2 <= i < to - 1 implies haze_blend(
        #[trigger] after[i],
        i - (from + 2),
        width,
        height,
    ) by {
        assert(after[i] == before[i]);
    }
}

/// Whether `haze_fits` holds.
pub fn fits_haze(width: u32, height: u32) -> (fits: bool)
    ensures
        fits == haze_fits(width, height),
{
    let mut size: u64 = HAZE_START;
    let ghost mut n: nat = 0;
    while size < width as u64
        invariant
            HAZE_START <= size == haze_size(n),
            forall|k: nat| k < n ==> #[trigger] haze_size(k) < height,
        decreases HAZE_FACTOR * width - size,
    {
        if size >= height as u64 {
            return false;
        }
        size = size * HAZE_FACTOR;
        proof {
            n = n + 1;
        }
    }
    proof {
        assert forall|k: nat| #[trigger] haze_size(k) < width implies haze_size(k) < height by {
            if k >= n {
                lemma_haze_grows(n, k);
            }
        }
    }
    true
}

/// A buffer of noise for a surface: three ceilings sampled from
/// `BASE_LOW..BASE_END`, then every channel of every pixel sampled under its
/// ceiling.
pub fn noise_pixels(width: u32, height: u32, rng: &mut ThreadRng) -> (buffer: Result<
    Vec<u8>,
    NightError,
>)
    ensures
        buffer is Err <==> 4 * width * height > usize::MAX,
        buffer matches Err(e) ==> e == NightError::SurfaceTooLarge,
        buffer matches Ok(pixels) ==> is_noise(pixels@, width, height),
{
    assert(width * height <= 0xffff_ffff * 0xffff_ffff) by (nonlinear_arith)
        requires
            width <= 0xffff_ffff,
            height <= 0xffff_ffff,
    ;
    assert(4 * width * height == 4 * (width * height)) by (nonlinear_arith);
    let area: u64 = width as u64 * height as u64;
    if area > (usize::MAX / 4) as u64 {
        return Err(NightError::SurfaceTooLarge);
    }
    let len: usize = (area * 4) as usize;
    let red = sample_u8(rng, BASE_LOW, BASE_END);
    let green = sample_u8(rng, BASE_LOW, BASE_END);
    let blue = sample_u8(rng, BASE_LOW, BASE_END);
    let mut pixels: Vec<u8> = Vec::new();
    let mut place: usize = 0;
    while place < len
        invariant
            place <= len,
            pixels@.len() == place,
            BASE_LOW <= red < BASE_END,
            BASE_LOW <= green < BASE_END,
            BASE_LOW <= blue < BASE_END,
            noise_under(pixels@, red, green, blue),
        decreases len - place,
    {
        let byte = if place % 4 == 0 {
            sample_u8(rng, 0, red)
        } else if place % 4 == 1 {
            sample_u8(rng, 0, green)
        } else if place % 4 == 2 {
            sample_u8(rng, 0, blue)
        } else {
            ALPHA
        };
        pixels.push(byte);
        place = place + 1;
    }
    assert(noise_under(pixels@, red, green, blue));
    Ok(pixels)
}

/// Draws the background: the noise, then one haze blend for every square
/// narrower than the surface, each at a place sampled for it. Where a range
/// to sample from is empty, or the buffer cannot be held, nothing is drawn.
pub fn generate_background_color(
    global_width: u32,
    global_height: u32,
    ctx: &mut NightContext,
) -> (done: Result<(), NightError>)
    ensures
        final(ctx).lens == old(ctx).lens,
        final(ctx).galaxy == old(ctx).galaxy,
        final(ctx).clouds == old(ctx).clouds,
        final(ctx).canvas.width == old(ctx).canvas.width,
        final(ctx).canvas.height == old(ctx).canvas.height,
        extends(final(ctx).canvas.elements@, old(ctx).canvas.elements@),
        old(ctx).canvas.drawable() ==> final(ctx).canvas.drawable(),
        done == Err::<(), NightError>(NightError::DegenerateSurface) <==> !sound_surface(
            global_width,
            global_height,
        ),
        done == Err::<(), NightError>(NightError::SurfaceTooLarge) <==> sound_surface(
            global_width,
            global_height,
        ) && 4 * global_width * global_height > usize::MAX,
        done is Err ==> final(ctx).canvas.elements@ == old(ctx).canvas.elements@
            && final(ctx).canvas.pixels == old(ctx).canvas.pixels,
        done is Ok ==> is_noise(final(ctx).canvas.pixels@, global_width, global_height),
        done is Ok ==> is_background(
            final(ctx).canvas.elements@,
            old(ctx).canvas.elements@.len() as int,
            final(ctx).canvas.elements@.len() as int,
            global_width,
            global_height,
        ),
{
    if global_width == 0 || global_height == 0 || !fits_haze(global_width, global_height) {
        return Err(NightError::DegenerateSurface);
    }
    let pixels = match noise_pixels(global_width, global_height, &mut ctx.rng) {
        Ok(pixels) => pixels,
        Err(_) => {
            return Err(NightError::SurfaceTooLarge);
        },
    };
    ctx.canvas.pixels = pixels;
    let ghost from = ctx.canvas.elements@.len() as int;
    ctx.canvas.elements.push(Element::Noise);
    ctx.canvas.elements.push(Element::HazeOpen);
    let mut size: u64 = HAZE_START;
    let ghost mut n: nat = 0;
    while size < global_width as u64
        invariant
            haze_fits(global_width, global_height),
            ctx.lens == old(ctx).lens,
            ctx.galaxy == old(ctx).galaxy,
            ctx.clouds == old(ctx).clouds,
            ctx.canvas.width == old(ctx).canvas.width,
            ctx.canvas.height == old(ctx).canvas.height,
            is_noise(ctx.canvas.pixels@, global_width, global_height),
            extends(ctx.canvas.elements@, old(ctx).canvas.elements@),
            old(ctx).canvas.drawable() ==> ctx.canvas.drawable(),
            from == old(ctx).canvas.elements@.len(),
            ctx.canvas.elements@.len() == from + 2 + n,
            ctx.canvas.elements@[from] == Element::Noise,
            ctx.canvas.elements@[from + 1] == Element::HazeOpen,
            HAZE_START <= size == haze_size(n),
            forall|k: nat| k < n ==> #[trigger] haze_size(k) < global_width,
            forall|i: int|
                from + 2 <= i < from + 2 + n ==> haze_blend(
                    #[trigger] ctx.canvas.elements@[i],
                    i - (from + 2),
                    global_width,
                    global_height,
                ),
        decreases HAZE_FACTOR * global_width - size,
    {
        assert(haze_size(n) < global_height);
        let side = size as u32;
        let left = sample_u32(&mut ctx.rng, 0, global_width - side);
        let top = sample_u32(&mut ctx.rng, 0, global_height - side);
        ctx.canvas.elements.push(
            Element::HazeBlend {
                left,
                top,
                size: side,
                width: global_width,
                height: global_height,
            },
        );
        size = size * HAZE_FACTOR;
        proof {
            n = n + 1;
        }
    }
    ctx.canvas.elements.push(Element::HazeClose);
    Ok(())
}

} // verus!
