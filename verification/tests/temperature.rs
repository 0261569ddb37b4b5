use nest_cli::temp::{
    celsius_to_fahrenheit, fahrenheit_to_celsius, milli_to_deci, milli_to_whole,
};

#[test]
fn converts_sixty_eight_fahrenheit_to_twenty_celsius() {
    let c: i64 = fahrenheit_to_celsius(68_000);
    assert_eq!(c, 20_000);
}

#[test]
fn converts_seventy_fahrenheit_near_twenty_one_point_one() {
    let c: i64 = fahrenheit_to_celsius(70_000);
    assert_eq!(c, 21_111);
    assert_eq!(milli_to_deci(c), 211);
}

#[test]
fn converts_twenty_celsius_back_to_sixty_eight_fahrenheit() {
    let f: i64 = celsius_to_fahrenheit(20_000);
    assert_eq!(f, 68_000);
}

#[test]
fn minus_forty_is_the_fixed_point() {
    assert_eq!(fahrenheit_to_celsius(-40_000), -40_000);
    assert_eq!(celsius_to_fahrenheit(-40_000), -40_000);
}

#[test]
fn round_trip_stays_within_one_millidegree() {
    let samples: [i64; 9] = [
        -400_000, -40_000, -1, 0, 2, 32_000, 68_000, 70_001, 999_999_999,
    ];
    for &f in samples.iter() {
        let back: i64 = celsius_to_fahrenheit(fahrenheit_to_celsius(f));
        assert!((back - f).abs() <= 1, "round trip drifted for {f}: {back}");
    }
}

#[test]
fn reduces_millis_to_rounded_tenths_and_wholes() {
    assert_eq!(milli_to_deci(21_111), 211);
    assert_eq!(milli_to_deci(21_150), 212);
    assert_eq!(milli_to_deci(-21_150), -211);
    assert_eq!(milli_to_whole(45_600), 46);
    assert_eq!(milli_to_whole(45_499), 45);
    assert_eq!(milli_to_whole(45_500), 46);
}
