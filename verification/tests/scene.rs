use night_sky::canvas::Canvas;
use night_sky::color::Color;
use night_sky::context::{get_context, LensEffect};
use night_sky::element::Element;
use night_sky::error::NightError;
use night_sky::ops::CanvasOp;
use night_sky::run;
use night_sky::scene::generate_scene;

fn layer_of(element: &Element) -> u32 {
    match element {
        Element::Noise | Element::HazeOpen | Element::HazeBlend { .. } | Element::HazeClose => 0,
        Element::Band { .. } | Element::Dot { .. } => 1,
        Element::SmallStar { .. } => 2,
        Element::GlowStar { .. } | Element::FlareStar { .. } => 3,
        Element::Cloud { .. } => 4,
    }
}

fn assert_no_inherited_glow(ops: &[CanvasOp]) {
    let mut blur = 0i64;
    let mut own = false;
    let mut saved: Vec<i64> = Vec::new();
    for (i, op) in ops.iter().enumerate() {
        match *op {
            CanvasOp::SetShadowBlur { blur: set } => {
                blur = set;
                own = true;
            }
            CanvasOp::Save => saved.push(blur),
            CanvasOp::Restore => {
                if let Some(before) = saved.pop() {
                    blur = before;
                    own = false;
                }
            }
            CanvasOp::FillRect { .. }
            | CanvasOp::Fill
            | CanvasOp::Stroke
            | CanvasOp::DrawImage { .. } => {
                assert!(blur == 0 || own, "operation {} inherits a glow of {}", i, blur);
                own = false;
            }
            _ => {}
        }
    }
}

#[test]
fn get_context_is_blank_with_flares_galaxy_and_clouds() {
    let ctx = get_context(800, 600);
    assert_eq!(ctx.canvas.width, 800);
    assert_eq!(ctx.canvas.height, 600);
    assert!(ctx.canvas.pixels.is_empty());
    assert!(ctx.canvas.elements.is_empty());
    assert_eq!(ctx.lens, LensEffect::Branch(4));
    assert!(ctx.lens.has_flares());
    assert!(ctx.galaxy);
    assert!(ctx.clouds);
}

#[test]
fn run_paints_every_layer_in_order() {
    let canvas = run(800, 600).unwrap();
    assert_eq!((canvas.width, canvas.height), (800, 600));
    assert_eq!(canvas.pixels.len(), 4 * 800 * 600);
    for (place, byte) in canvas.pixels.iter().enumerate() {
        if place % 4 == 3 {
            assert_eq!(*byte, 230);
        } else {
            assert!(*byte < 79);
        }
    }
    let layers: Vec<u32> = canvas.elements.iter().map(layer_of).collect();
    for pair in layers.windows(2) {
        assert!(pair[0] <= pair[1]);
    }
    for layer in 0..5 {
        assert!(layers.contains(&layer));
    }
    assert_eq!(canvas.elements[0], Element::Noise);
    assert_eq!(canvas.elements[1], Element::HazeOpen);
    assert_eq!(canvas.elements[6], Element::HazeClose);
    assert!(matches!(canvas.elements[7], Element::Band { .. }));
    let small = canvas.elements.iter().filter(|e| matches!(e, Element::SmallStar { .. })).count();
    let big = canvas.elements.iter().filter(|e| matches!(e, Element::FlareStar { .. })).count();
    let clouds = canvas.elements.iter().filter(|e| matches!(e, Element::Cloud { .. })).count();
    assert!(small >= 800 * 600 / 1499 + 6 * 5);
    assert!(8 <= big && big < 20);
    assert!(1 <= clouds && clouds <= 3);
    assert!(canvas.is_drawable());
}

#[test]
fn run_lowers_to_operations_that_contain_their_glow() {
    let canvas = run(800, 600).unwrap();
    let ops = canvas.ops();
    assert_eq!(ops[0], CanvasOp::PutImageData);
    assert_eq!(ops[1], CanvasOp::Save);
    assert_eq!(ops[2], CanvasOp::SetGlobalAlpha { numerator: 4, denominator: 8 });
    assert_eq!(ops[10], CanvasOp::Restore);
    assert_no_inherited_glow(&ops);
    let mut after_star = 0;
    for i in 0..ops.len() {
        if ops[i] == (CanvasOp::SetShadowBlur { blur: 1000 }) {
            assert!(matches!(ops[i + 1], CanvasOp::SetFillColor { .. }));
            assert!(matches!(ops[i + 2], CanvasOp::FillRect { .. }));
            assert_eq!(ops[i + 3], CanvasOp::SetShadowBlur { blur: 0 });
            after_star += 1;
        }
    }
    assert!(after_star > 0);
    let mut expected = Vec::new();
    for element in canvas.elements.iter() {
        element.draw(&mut expected);
    }
    assert_eq!(ops, expected);
}

#[test]
fn run_of_a_degenerate_surface_is_refused() {
    assert_eq!(run(0, 600).err(), Some(NightError::DegenerateSurface));
    assert_eq!(run(800, 0).err(), Some(NightError::DegenerateSurface));
    assert_eq!(run(0, 0).err(), Some(NightError::DegenerateSurface));
    assert_eq!(run(1920, 400).err(), Some(NightError::DegenerateSurface));
}

#[test]
fn run_of_the_smallest_surface_paints() {
    let canvas = run(1, 1).unwrap();
    assert_eq!(canvas.pixels.len(), 4);
    assert_eq!(canvas.pixels[3], 230);
    assert_eq!(canvas.elements[2], Element::HazeClose);
}

#[test]
fn scene_without_galaxy_and_clouds_leaves_them_out() {
    let mut ctx = get_context(800, 600);
    ctx.galaxy = false;
    ctx.clouds = false;
    assert_eq!(generate_scene(800, 600, &mut ctx), Ok(()));
    let elements = &ctx.canvas.elements;
    assert!(elements.iter().all(|e| !matches!(
        e,
        Element::Band { .. } | Element::Dot { .. } | Element::Cloud { .. }
    )));
    let small = elements.iter().filter(|e| matches!(e, Element::SmallStar { .. })).count();
    let big = elements.iter().filter(|e| matches!(e, Element::FlareStar { .. })).count();
    assert!(small >= 800 * 600 / 899 + 15 * 5);
    assert!(10 <= big && big < 40);
    assert_eq!(elements.len(), 7 + small + big);
    assert_no_inherited_glow(&ctx.canvas.ops());
}

#[test]
fn scene_of_a_degenerate_surface_leaves_the_canvas_as_it_was() {
    let mut ctx = get_context(0, 600);
    assert_eq!(generate_scene(0, 600, &mut ctx), Err(NightError::DegenerateSurface));
    assert!(ctx.canvas.elements.is_empty());
    assert!(ctx.canvas.pixels.is_empty());
}

#[test]
fn canvas_with_a_star_out_of_reach_is_not_drawable() {
    let mut canvas = Canvas::new(10, 10);
    assert!(canvas.is_drawable());
    assert!(canvas.ops().is_empty());
    let center = Color::rgb(200, 200, 200);
    let middle = Color { red: 150, green: 150, blue: 150, alpha: 500_000 };
    canvas.elements.push(Element::Noise);
    assert!(canvas.is_drawable());
    canvas.elements.push(Element::GlowStar { x: 0, y: i64::MIN, radius: 2_000, center, middle });
    assert!(!canvas.is_drawable());
}

#[test]
fn small_star_before_a_dot_leaves_no_glow() {
    let color = Color { red: 10, green: 10, blue: 10, alpha: 20_000 };
    let mut canvas = Canvas::new(10, 10);
    canvas.elements.push(Element::SmallStar { x: 0, y: 0, side: 100, color });
    canvas.elements.push(Element::Dot { x: 0, y: 0, side: 100, color });
    let ops = canvas.ops();
    assert_no_inherited_glow(&ops);
    assert_eq!(ops.len(), 7);
}

#[test]
fn run_of_the_largest_surface_is_refused() {
    assert_eq!(run(u32::MAX, u32::MAX).err(), Some(NightError::SurfaceTooLarge));
}
