use night_sky::context::{get_context, LensEffect, NightContext};
use night_sky::element::Element;
use night_sky::error::NightError;
use night_sky::point::{Point, PointKind};
use night_sky::stars::{
    base_star_count, generate_base_stars, generate_closest_stars, generate_cluster_stars,
    scatter_cluster,
};

fn plain_context(width: u32, height: u32) -> NightContext {
    let mut ctx = get_context(width, height);
    ctx.galaxy = false;
    ctx
}

fn assert_small_star(element: &Element) -> (i64, i64) {
    match *element {
        Element::SmallStar { x, y, side, color } => {
            assert!(100 <= side && side < 1900);
            assert!(150 <= color.red && color.red < 255);
            assert!(150 <= color.green && color.green < 255);
            assert!(150 <= color.blue && color.blue < 255);
            assert_eq!(color.alpha, 1_000_000);
            (x, y)
        }
        other => panic!("not a small star: {:?}", other),
    }
}

#[test]
fn star_count_is_the_area_over_the_divisor_rounded_down() {
    assert_eq!(base_star_count(800, 600, 300), 1600);
    assert_eq!(base_star_count(800, 600, 899), 533);
    assert_eq!(base_star_count(1920, 1080, 500), 4147);
    assert_eq!(base_star_count(1920, 1080, 1499), 1383);
    assert_eq!(base_star_count(1, 1, 300), 0);
    assert_eq!(base_star_count(0, 600, 300), 0);
}

#[test]
fn star_count_is_zero_exactly_below_the_divisor() {
    assert_eq!(base_star_count(23, 13, 300), 0);
    assert_eq!(base_star_count(20, 15, 300), 1);
    assert_eq!(base_star_count(30, 20, 700), 0);
    assert_eq!(base_star_count(30, 20, 600), 1);
}

#[test]
fn star_count_of_the_largest_surface_does_not_overflow() {
    assert_eq!(base_star_count(u32::MAX, u32::MAX, 1), 18_446_744_065_119_617_025);
    assert_eq!(base_star_count(u32::MAX, u32::MAX, 300), 61_489_146_883_732_056);
}

#[test]
fn base_stars_lie_on_pixels_of_the_surface() {
    let mut ctx = plain_context(800, 600);
    generate_base_stars(800, 600, &mut ctx);
    let count = ctx.canvas.elements.len() as u64;
    assert!(base_star_count(800, 600, 899) <= count);
    assert!(count <= base_star_count(800, 600, 300));
    for element in ctx.canvas.elements.iter() {
        let (x, y) = assert_small_star(element);
        assert!(0 <= x && x < 800_000 && x % 1000 == 0);
        assert!(0 <= y && y < 600_000 && y % 1000 == 0);
    }
    assert!(ctx.canvas.pixels.is_empty());
    assert_eq!(ctx.lens, LensEffect::Branch(4));
}

#[test]
fn base_stars_are_thinner_beside_a_galaxy() {
    let mut ctx = get_context(800, 600);
    generate_base_stars(800, 600, &mut ctx);
    let count = ctx.canvas.elements.len() as u64;
    assert!(base_star_count(800, 600, 1499) <= count);
    assert!(count <= base_star_count(800, 600, 500));
}

#[test]
fn base_stars_of_a_tiny_surface_are_none() {
    let mut ctx = plain_context(17, 17);
    generate_base_stars(17, 17, &mut ctx);
    assert!(ctx.canvas.elements.is_empty());
    let mut flat = plain_context(0, 600);
    generate_base_stars(0, 600, &mut flat);
    assert!(flat.canvas.elements.is_empty());
}

#[test]
fn base_stars_follow_what_was_drawn_before() {
    let mut ctx = plain_context(100, 100);
    Point { kind: PointKind::Small, x: 1, y: 2 }.draw_flat(&mut ctx);
    let first = ctx.canvas.elements[0];
    generate_base_stars(100, 100, &mut ctx);
    assert_eq!(ctx.canvas.elements[0], first);
    assert!(ctx.canvas.elements.len() >= 1 + 11);
}

#[test]
fn cluster_members_stay_within_the_size_of_the_cluster() {
    let mut ctx = plain_context(800, 600);
    let center = Point { kind: PointKind::Small, x: 400_000, y: 300_000 };
    scatter_cluster(center, 50_000, 200, &mut ctx);
    assert_eq!(ctx.canvas.elements.len(), 200);
    let mut moved = false;
    for element in ctx.canvas.elements.iter() {
        let (x, y) = assert_small_star(element);
        assert!(-50_000 <= x - 400_000 && x - 400_000 < 50_000);
        assert!(-50_000 <= y - 300_000 && y - 300_000 < 50_000);
        if x != 350_000 || y != 250_000 {
            moved = true;
        }
    }
    assert!(moved);
}

#[test]
fn cluster_of_no_members_draws_nothing() {
    let mut ctx = plain_context(800, 600);
    let center = Point { kind: PointKind::Small, x: 0, y: 0 };
    scatter_cluster(center, 40_000, 0, &mut ctx);
    assert!(ctx.canvas.elements.is_empty());
}

#[test]
fn clusters_draw_between_five_and_forty_four_stars_each() {
    let mut ctx = plain_context(800, 600);
    assert_eq!(generate_cluster_stars(800, 600, &mut ctx), Ok(()));
    let count = ctx.canvas.elements.len();
    assert!(15 * 5 <= count && count <= 39 * 44);
    for element in ctx.canvas.elements.iter() {
        let (x, y) = assert_small_star(element);
        assert!(-75_000 <= x && x < 800_000 + 75_000);
        assert!(-75_000 <= y && y < 600_000 + 75_000);
    }
}

#[test]
fn clusters_are_fewer_beside_a_galaxy() {
    let mut ctx = get_context(800, 600);
    assert_eq!(generate_cluster_stars(800, 600, &mut ctx), Ok(()));
    let count = ctx.canvas.elements.len();
    assert!(6 * 5 <= count && count <= 19 * 44);
}

#[test]
fn clusters_of_a_degenerate_surface_are_refused() {
    let mut ctx = plain_context(0, 600);
    assert_eq!(generate_cluster_stars(0, 600, &mut ctx), Err(NightError::DegenerateSurface));
    assert_eq!(generate_cluster_stars(800, 0, &mut ctx), Err(NightError::DegenerateSurface));
    assert!(ctx.canvas.elements.is_empty());
}

#[test]
fn closest_stars_are_flares_on_pixels() {
    let mut ctx = plain_context(800, 600);
    assert_eq!(generate_closest_stars(800, 600, &mut ctx), Ok(()));
    let count = ctx.canvas.elements.len();
    assert!(10 <= count && count < 40);
    for element in ctx.canvas.elements.iter() {
        match *element {
            Element::FlareStar { x, y, radius, inner, center, middle } => {
                assert!(0 <= x && x < 800_000 && x % 1000 == 0);
                assert!(0 <= y && y < 600_000 && y % 1000 == 0);
                assert!(30_000 <= radius && radius < 60_000);
                assert!(500 <= inner && inner < 3_000);
                assert!(200 <= center.red && center.red < 255);
                assert!(200 <= center.green && center.green < 255);
                assert!(200 <= center.blue && center.blue < 255);
                assert_eq!(center.alpha, 1_000_000);
                assert!(150 <= middle.red && middle.red < 255);
                assert!(150 <= middle.green && middle.green < 255);
                assert!(150 <= middle.blue && middle.blue < 255);
                assert_eq!(middle.alpha, 500_000);
                assert!(element.is_drawable());
            }
            other => panic!("not a flare: {:?}", other),
        }
    }
}

#[test]
fn closest_stars_without_flares_are_round_glows() {
    let mut ctx = get_context(800, 600);
    ctx.lens = LensEffect::Branch(6);
    assert!(!ctx.lens.has_flares());
    assert_eq!(generate_closest_stars(800, 600, &mut ctx), Ok(()));
    let count = ctx.canvas.elements.len();
    assert!(8 <= count && count < 20);
    for element in ctx.canvas.elements.iter() {
        match *element {
            Element::GlowStar { radius, center, middle, .. } => {
                assert!(2_000 <= radius && radius < 6_000);
                assert!(200 <= center.red && center.red < 255);
                assert_eq!(middle.alpha, 500_000);
            }
            other => panic!("not a round glow: {:?}", other),
        }
    }
}

#[test]
fn closest_stars_of_a_degenerate_surface_are_refused() {
    let mut ctx = plain_context(800, 0);
    assert_eq!(generate_closest_stars(800, 0, &mut ctx), Err(NightError::DegenerateSurface));
    assert_eq!(generate_closest_stars(0, 0, &mut ctx), Err(NightError::DegenerateSurface));
    assert!(ctx.canvas.elements.is_empty());
}

#[test]
fn point_draws_by_its_kind() {
    let mut ctx = plain_context(10, 10);
    Point { kind: PointKind::Small, x: 5_000, y: 6_000 }.draw(&mut ctx);
    Point { kind: PointKind::Big, x: 7_000, y: 8_000 }.draw(&mut ctx);
    assert_eq!(ctx.canvas.elements.len(), 2);
    assert_eq!(assert_small_star(&ctx.canvas.elements[0]), (5_000, 6_000));
    assert!(matches!(
        ctx.canvas.elements[1],
        Element::FlareStar { x: 7_000, y: 8_000, .. }
    ));
}

#[test]
fn flat_dots_are_small_or_five_pixels_wide() {
    let mut ctx = plain_context(10, 10);
    Point { kind: PointKind::Small, x: 1_000, y: 2_000 }.draw_flat(&mut ctx);
    Point { kind: PointKind::Big, x: 3_000, y: 4_000 }.draw_flat(&mut ctx);
    match ctx.canvas.elements[0] {
        Element::Dot { x, y, side, color } => {
            assert_eq!((x, y), (1_000, 2_000));
            assert!(100 <= side && side < 1900);
            assert!(150 <= color.red && color.red < 255);
            assert_eq!(color.alpha, 1_000_000);
        }
        other => panic!("not a dot: {:?}", other),
    }
    match ctx.canvas.elements[1] {
        Element::Dot { x, y, side, color } => {
            assert_eq!((x, y, side), (3_000, 4_000, 5_000));
            assert!(150 <= color.blue && color.blue < 255);
        }
        other => panic!("not a dot: {:?}", other),
    }
}
