use night_sky::color::{push_decimal, push_padded, Color, OPAQUE};

#[test]
fn solid_colour_is_named_without_opacity() {
    let color = Color::rgb(200, 201, 202);
    assert_eq!(color.alpha, OPAQUE);
    assert_eq!(color.css(), "rgb(200,201,202)");
}

#[test]
fn translucent_colour_is_named_to_six_places() {
    let color = Color { red: 150, green: 7, blue: 0, alpha: 500_000 };
    assert_eq!(color.css(), "rgba(150,7,0,0.500000)");
    let faint = Color { red: 255, green: 10, blue: 99, alpha: 5_123 };
    assert_eq!(faint.css(), "rgba(255,10,99,0.005123)");
    let clear = Color { red: 0, green: 0, blue: 0, alpha: 0 };
    assert_eq!(clear.css(), "rgba(0,0,0,0.000000)");
}

#[test]
fn opacity_of_one_or_more_is_solid() {
    let color = Color { red: 1, green: 2, blue: 3, alpha: 1_000_001 };
    assert_eq!(color.css(), "rgb(1,2,3)");
    let nearly = Color { red: 1, green: 2, blue: 3, alpha: 999_999 };
    assert_eq!(nearly.css(), "rgba(1,2,3,0.999999)");
}

#[test]
fn decimal_has_no_leading_zeros() {
    let mut text = String::from("n=");
    push_decimal(&mut text, 0);
    push_decimal(&mut text, 7);
    push_decimal(&mut text, 10);
    push_decimal(&mut text, 4_294_967_295);
    assert_eq!(text, "n=07104294967295");
}

#[test]
fn padded_keeps_the_last_places_with_their_zeros() {
    let mut text = String::new();
    push_padded(&mut text, 42, 6);
    assert_eq!(text, "000042");
    push_padded(&mut text, 1_234_567, 3);
    assert_eq!(text, "000042567");
    push_padded(&mut text, 9, 0);
    assert_eq!(text, "000042567");
}

#[test]
fn sampled_colour_keeps_its_range_and_opacity() {
    let mut rng = rand::rng();
    for _ in 0..200 {
        let color = Color::sample(&mut rng, 200, 255, 500_000);
        assert!(200 <= color.red && color.red < 255);
        assert!(200 <= color.green && color.green < 255);
        assert!(200 <= color.blue && color.blue < 255);
        assert_eq!(color.alpha, 500_000);
    }
}
