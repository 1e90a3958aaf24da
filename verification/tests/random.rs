use night_sky::random::{sample, sample_u32, sample_u8};

#[test]
fn sample_of_an_empty_range_is_none() {
    let mut rng = rand::rng();
    assert_eq!(sample(&mut rng, 5, 5), None);
    assert_eq!(sample(&mut rng, 7, -7), None);
}

#[test]
fn sample_of_one_value_is_that_value() {
    let mut rng = rand::rng();
    assert_eq!(sample(&mut rng, -3, -2), Some(-3));
    assert_eq!(sample_u8(&mut rng, 9, 10), 9);
    assert_eq!(sample_u32(&mut rng, 41, 42), 41);
}

#[test]
fn samples_stay_in_their_range_and_move_about() {
    let mut rng = rand::rng();
    let mut seen_other_than_low = false;
    let mut seen_other_than_high = false;
    for _ in 0..2000 {
        let value = sample(&mut rng, -1000, 1000).unwrap();
        assert!(-1000 <= value && value < 1000);
        if value != -1000 {
            seen_other_than_low = true;
        }
        if value != 999 {
            seen_other_than_high = true;
        }
    }
    assert!(seen_other_than_low);
    assert!(seen_other_than_high);
}

#[test]
fn byte_samples_cover_a_small_range() {
    let mut rng = rand::rng();
    let mut seen = [false; 4];
    for _ in 0..2000 {
        let value = sample_u8(&mut rng, 10, 14);
        assert!(10 <= value && value < 14);
        seen[(value - 10) as usize] = true;
    }
    assert_eq!(seen, [true; 4]);
}
