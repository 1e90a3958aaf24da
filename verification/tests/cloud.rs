use night_sky::cloud::generate_clouds;
use night_sky::context::get_context;
use night_sky::element::{Curve, Element};
use night_sky::error::NightError;

fn assert_near(curve: &Curve) {
    assert!(-400_000 <= curve.cx && curve.cx < 1_200_000);
    assert!(-300_000 <= curve.cy && curve.cy < 900_000);
    assert!(-400_000 <= curve.x && curve.x < 1_200_000);
    assert!(-300_000 <= curve.y && curve.y < 900_000);
}

#[test]
fn clouds_are_one_to_three_grey_paths_near_the_surface() {
    for _ in 0..20 {
        let mut ctx = get_context(800, 600);
        assert_eq!(generate_clouds(800, 600, &mut ctx), Ok(()));
        let count = ctx.canvas.elements.len();
        assert!(1 <= count && count <= 3);
        for element in ctx.canvas.elements.iter() {
            match *element {
                Element::Cloud { x, y, first, second, close_x, close_y, color } => {
                    assert!(-400_000 <= x && x < 1_200_000);
                    assert!(-300_000 <= y && y < 900_000);
                    assert_near(&first);
                    if let Some(curve) = second {
                        assert_near(&curve);
                    }
                    assert!(-400_000 <= close_x && close_x < 1_200_000);
                    assert!(-300_000 <= close_y && close_y < 900_000);
                    assert!(color.red < 50);
                    assert_eq!(color.green, color.red);
                    assert_eq!(color.blue, color.red);
                    assert!(10_000 <= color.alpha && color.alpha < 80_000);
                }
                other => panic!("not a cloud: {:?}", other),
            }
        }
    }
}

#[test]
fn clouds_of_a_degenerate_surface_are_refused() {
    let mut ctx = get_context(0, 0);
    assert_eq!(generate_clouds(0, 600, &mut ctx), Err(NightError::DegenerateSurface));
    assert_eq!(generate_clouds(800, 0, &mut ctx), Err(NightError::DegenerateSurface));
    assert!(ctx.canvas.elements.is_empty());
}
