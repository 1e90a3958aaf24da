use night_sky::context::get_context;
use night_sky::element::Element;
use night_sky::error::NightError;
use night_sky::galaxy::{
    chooses_across, generate_galaxy, integer_sqrt, place_band, segment_length, step_along,
};

#[test]
fn integer_sqrt_rounds_down() {
    assert_eq!(integer_sqrt(0), 0);
    assert_eq!(integer_sqrt(1), 1);
    assert_eq!(integer_sqrt(3), 1);
    assert_eq!(integer_sqrt(4), 2);
    assert_eq!(integer_sqrt(24), 4);
    assert_eq!(integer_sqrt(25), 5);
    assert_eq!(integer_sqrt(1_000_000_000_000), 1_000_000);
    assert_eq!(integer_sqrt(999_999_999_999), 999_999);
    assert_eq!(integer_sqrt(u128::MAX), u64::MAX);
    assert_eq!(integer_sqrt(1 << 126), 1 << 63);
}

#[test]
fn segment_length_is_the_distance_rounded_down() {
    assert_eq!(segment_length(0, 0, 3_000, 4_000), 5_000);
    assert_eq!(segment_length(3_000, 4_000, 0, 0), 5_000);
    assert_eq!(segment_length(-1, -1, 0, 0), 1);
    assert_eq!(segment_length(7, 7, 7, 7), 0);
    assert_eq!(segment_length(-100_000, 0, 2_020_000, 0), 2_120_000);
    let reach = 1_000_000_000_000_000;
    assert_eq!(segment_length(-reach, 0, reach, 0), 2_000_000_000_000_000);
    assert_eq!(segment_length(-reach, -reach, reach, reach), 2_828_427_124_746_190);
}

#[test]
fn band_runs_across_for_samples_within_the_height() {
    assert!(chooses_across(0, 1080));
    assert!(chooses_across(1079, 1080));
    assert!(!chooses_across(1080, 1080));
    assert!(!chooses_across(2999, 1080));
    let mut across = 0;
    for sample in 0..(1920 + 1080) {
        if chooses_across(sample, 1080) {
            across += 1;
        }
    }
    assert_eq!(across, 1080);
    assert_eq!(across * 100 / 3000, 36);
}

#[test]
fn band_ends_lie_a_hundred_pixels_outside_the_surface() {
    assert_eq!(
        place_band(true, 10, 1000, 1920, 1080),
        (-100_000, -90_000, 2_020_000, 1_100_000)
    );
    assert_eq!(
        place_band(false, 10, 1000, 1920, 1080),
        (-90_000, -100_000, 1_100_000, 1_180_000)
    );
    assert_eq!(place_band(true, 0, 0, 1, 1), (-100_000, -100_000, 101_000, 100_000));
}

#[test]
fn band_ends_are_the_same_for_the_same_samples() {
    assert_eq!(place_band(true, 700, 12, 1920, 1080), place_band(true, 700, 12, 1920, 1080));
    assert_eq!(place_band(false, 700, 12, 1920, 1080), place_band(false, 700, 12, 1920, 1080));
}

#[test]
fn steps_along_a_segment_are_even_and_rounded_towards_the_start() {
    assert_eq!(step_along(0, 1000, 0, 4), 0);
    assert_eq!(step_along(0, 1000, 1, 4), 250);
    assert_eq!(step_along(0, 1000, 4, 4), 1000);
    assert_eq!(step_along(0, 10, 1, 3), 3);
    assert_eq!(step_along(0, -10, 1, 3), -3);
    assert_eq!(step_along(-10, 0, 1, 3), -7);
    assert_eq!(step_along(5, 5, 2, 3), 5);
    let reach = 1_000_000_000_000_000;
    assert_eq!(step_along(-reach, reach, u64::MAX - 1, u64::MAX), reach - 1);
    assert_eq!(step_along(reach, -reach, u64::MAX, u64::MAX), -reach);
}

#[test]
fn galaxy_is_a_band_and_the_dots_along_it() {
    let mut ctx = get_context(1920, 1080);
    assert_eq!(generate_galaxy(1920, 1080, &mut ctx), Ok(()));
    let elements = &ctx.canvas.elements;
    let (x1, y1, x2, y2) = match elements[0] {
        Element::Band { x1, y1, x2, y2, color } => {
            assert!(150 <= color.red && color.red < 255);
            assert!(150 <= color.green && color.green < 255);
            assert!(150 <= color.blue && color.blue < 255);
            assert!(5_000 <= color.alpha && color.alpha < 10_000);
            (x1, y1, x2, y2)
        }
        other => panic!("not a band: {:?}", other),
    };
    if x1 == -100_000 && x2 == 2_020_000 {
        assert!(-100_000 <= y1 && y1 < 980_000 && y1 % 1000 == 0);
        assert!(100_000 <= y2 && y2 < 1_180_000 && y2 % 1000 == 0);
    } else {
        assert_eq!((y1, y2), (-100_000, 1_180_000));
        assert!(-100_000 <= x1 && x1 < 1_820_000 && x1 % 1000 == 0);
        assert!(100_000 <= x2 && x2 < 2_020_000 && x2 % 1000 == 0);
    }
    let pixels = segment_length(x1, y1, x2, y2) / 1000;
    let dots = (elements.len() - 1) as u64;
    assert!(pixels / 7 <= dots && dots < pixels / 2);
    for (i, element) in elements.iter().skip(1).enumerate() {
        match *element {
            Element::Dot { x, y, side, color } => {
                let at_x = step_along(x1, x2, i as u64, dots);
                let at_y = step_along(y1, y2, i as u64, dots);
                assert!(at_x - 40_000 <= x && x < at_x + 40_000);
                assert!(at_y - 40_000 <= y && y < at_y + 40_000);
                assert!(100 <= side && side < 1900);
                assert!(150 <= color.red && color.red < 255);
                assert_eq!(color.alpha, 1_000_000);
            }
            other => panic!("not a dot: {:?}", other),
        }
    }
}

#[test]
fn galaxy_of_a_degenerate_surface_is_refused() {
    let mut ctx = get_context(0, 0);
    assert_eq!(generate_galaxy(0, 1080, &mut ctx), Err(NightError::DegenerateSurface));
    assert_eq!(generate_galaxy(1920, 0, &mut ctx), Err(NightError::DegenerateSurface));
    assert!(ctx.canvas.elements.is_empty());
}

#[test]
fn galaxy_of_the_smallest_surface_has_its_dots() {
    let mut ctx = get_context(1, 1);
    assert_eq!(generate_galaxy(1, 1, &mut ctx), Ok(()));
    let dots = ctx.canvas.elements.len() - 1;
    assert!(201 / 7 <= dots && dots < 284 / 2);
}
