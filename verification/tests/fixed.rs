use gpscandump::fixed::Fixed;

fn text(units: i64, places: u8) -> String {
    Fixed { units }.render(places)
}

#[test]
fn render_writes_eight_places_behind_a_comma() {
    assert_eq!(text(4_927_416_667, 8), "49,27416667");
    assert_eq!(text(-12_318_533_333, 8), "-123,18533333");
    assert_eq!(text(0, 8), "0,00000000");
    assert_eq!(text(1, 8), "0,00000001");
    assert_eq!(text(-1, 8), "-0,00000001");
    assert_eq!(text(i64::MAX, 8), "92233720368,54775807");
    assert_eq!(text(i64::MIN, 8), "-92233720368,54775808");
}

#[test]
fn render_rounds_to_two_places() {
    assert_eq!(text(6_170_000_076, 2), "61,70");
    assert_eq!(text(54_540_002_441, 2), "545,40");
    assert_eq!(text(-1_234_500_027, 2), "-12,35");
    assert_eq!(text(1_152_354_540, 2), "11,52");
    assert_eq!(text(99_999_999, 2), "1,00");
    assert_eq!(text(0, 2), "0,00");
    assert_eq!(text(i64::MIN, 2), "-92233720368,55");
}

#[test]
fn render_sends_a_tie_to_the_even_digit() {
    assert_eq!(text(12_500_000, 2), "0,12");
    assert_eq!(text(13_500_000, 2), "0,14");
    assert_eq!(text(37_500_000, 2), "0,38");
    assert_eq!(text(99_500_000, 2), "1,00");
    assert_eq!(text(12_500_001, 2), "0,13");
    assert_eq!(text(-12_500_000, 2), "-0,12");
}

#[test]
fn render_keeps_the_sign_of_what_rounds_to_zero() {
    assert_eq!(text(-100_000, 2), "-0,00");
    assert_eq!(text(100_000, 2), "0,00");
}

#[test]
fn render_takes_every_count_of_places() {
    assert_eq!(text(123_456_789, 1), "1,2");
    assert_eq!(text(123_456_789, 3), "1,235");
    assert_eq!(text(123_456_789, 4), "1,2346");
    assert_eq!(text(123_456_789, 5), "1,23457");
    assert_eq!(text(123_456_789, 6), "1,234568");
    assert_eq!(text(123_456_789, 7), "1,2345679");
}

#[test]
fn rendered_text_has_one_comma_and_digits() {
    for units in [0i64, 5, -5, 123_456_789_012, -987_654_321, i64::MAX, i64::MIN] {
        for places in [2u8, 8u8] {
            let text = Fixed { units }.render(places);
            let (whole, part) = text.split_once(',').unwrap();
            let digits = whole.strip_prefix('-').unwrap_or(whole);
            assert_eq!(whole.starts_with('-'), units < 0);
            assert!(!digits.is_empty());
            assert!(digits.chars().all(|c| c.is_ascii_digit()));
            assert_eq!(part.len(), places as usize);
            assert!(part.chars().all(|c| c.is_ascii_digit()));
        }
    }
}

#[test]
fn ten_knots_are_5_14444_metres_per_second() {
    let speed = Fixed { units: 1_000_000_000 }.knots_to_mps();
    assert_eq!(speed.units, 514_444_000);
    let metres_per_second = speed.units as f64 / 1e8;
    assert!((metres_per_second - 5.14444).abs() < 1e-5);
    assert_eq!(speed.render(2), "5,14");
}

#[test]
fn knots_convert_with_sign_and_rounding() {
    assert_eq!(Fixed { units: 0 }.knots_to_mps().units, 0);
    assert_eq!(Fixed { units: -1_000_000_000 }.knots_to_mps().units, -514_444_000);
    assert_eq!(Fixed { units: 50_000_000 }.knots_to_mps().units, 25_722_200);
    assert_eq!(Fixed { units: 2_239_999_962 }.knots_to_mps().units, 1_152_354_540);
    assert_eq!(Fixed { units: 1 }.knots_to_mps().units, 1);
    assert_eq!(Fixed { units: 2 }.knots_to_mps().units, 1);
    assert_eq!(Fixed { units: 3 }.knots_to_mps().units, 2);
    assert_eq!(Fixed { units: i64::MAX }.knots_to_mps().units, 4_744_908_404_127_718_285);
    assert_eq!(Fixed { units: i64::MIN }.knots_to_mps().units, -4_744_908_404_127_718_286);
}

#[test]
fn converted_speeds_are_nearest_to_the_product() {
    for units in [0i64, 1, 2, 3, 999_999, 1_000_000, 1_943_844, 123_456_789_012, i64::MAX, i64::MIN + 1] {
        for units in [units, -units] {
            let speed = Fixed { units }.knots_to_mps().units as i128;
            let exact = units as i128 * 514_444;
            assert!(2 * (speed * 1_000_000 - exact).abs() <= 1_000_000);
        }
    }
}
