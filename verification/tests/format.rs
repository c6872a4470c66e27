use fpvsetup::format::{friendly_ftoa, friendly_ftoa_base, Reading, DEGREE_SIGN, INFINITY_FTOA, NAN_FTOA};

fn reading(val: f64) -> Reading {
    Reading::from_bits(val.to_bits(), format!("{:.3}", val))
}

fn class(reading: &Reading) -> u8 {
    match reading {
        Reading::NotANumber => 0,
        Reading::Infinite { negative: false } => 1,
        Reading::Infinite { negative: true } => 2,
        Reading::Finite { .. } => 3,
    }
}

fn class_by_std(val: f64) -> u8 {
    if val.is_nan() {
        0
    } else if val.is_infinite() {
        if val.is_sign_negative() {
            2
        } else {
            1
        }
    } else {
        3
    }
}

#[test]
fn reading_from_bits_agrees_with_the_number() {
    let values = [
        0.0,
        -0.0,
        1.0,
        -1.0,
        3.14,
        f64::MIN_POSITIVE,
        f64::MIN_POSITIVE / 2.0,
        f64::MAX,
        f64::MIN,
        f64::EPSILON,
        f64::INFINITY,
        f64::NEG_INFINITY,
        f64::NAN,
        -f64::NAN,
        f64::from_bits(0x7ff0_0000_0000_0001),
        f64::from_bits(0xfff8_0000_0000_0000),
        f64::from_bits(0x7fef_ffff_ffff_ffff),
        f64::from_bits(0x000f_ffff_ffff_ffff),
        0.0 / 0.0,
        1.0 / 0.0,
        -1.0 / 0.0,
    ];
    for val in values {
        let r = Reading::from_bits(val.to_bits(), String::from("1.000"));
        assert_eq!(class(&r), class_by_std(val));
    }
}

#[test]
fn reading_keeps_the_rendering_of_an_ordinary_number_only() {
    match Reading::from_bits(2.5f64.to_bits(), String::from("2.500")) {
        Reading::Finite { fixed } => assert_eq!(fixed, "2.500"),
        _ => panic!("2.5 is an ordinary number"),
    }
    assert!(matches!(
        Reading::from_bits(f64::NAN.to_bits(), String::from("NaN")),
        Reading::NotANumber
    ));
    assert!(matches!(
        Reading::from_bits(f64::NEG_INFINITY.to_bits(), String::from("-inf")),
        Reading::Infinite { negative: true }
    ));
    assert!(matches!(
        Reading::from_bits(f64::INFINITY.to_bits(), String::from("inf")),
        Reading::Infinite { negative: false }
    ));
}

#[test]
fn sentinels() {
    assert_eq!(NAN_FTOA, "<error>");
    assert_eq!(INFINITY_FTOA, "\u{221e}");
    assert_eq!(DEGREE_SIGN, "\u{b0}");
}

#[test]
fn zeros_at_the_end_are_dropped() {
    assert_eq!(friendly_ftoa(&reading(3.1400)), "3.14");
}

#[test]
fn whole_number_loses_its_point() {
    assert_eq!(friendly_ftoa(&reading(5.0)), "5");
}

#[test]
fn not_a_number_shows_the_sentinel() {
    assert_eq!(friendly_ftoa(&reading(f64::NAN)), "<error>");
}

#[test]
fn infinities_show_the_glyph_with_their_sign() {
    assert_eq!(friendly_ftoa(&reading(f64::INFINITY)), "∞");
    assert_eq!(friendly_ftoa(&reading(f64::NEG_INFINITY)), "-∞");
}

#[test]
fn at_most_three_fraction_digits_are_shown() {
    assert_eq!(friendly_ftoa(&reading(52.51234)), "52.512");
    assert_eq!(friendly_ftoa(&reading(0.0004)), "0");
    assert_eq!(friendly_ftoa(&reading(2.0006)), "2.001");
}

#[test]
fn zeros_before_the_point_stay() {
    assert_eq!(friendly_ftoa(&reading(100.0)), "100");
    assert_eq!(friendly_ftoa(&reading(10.5)), "10.5");
    assert_eq!(friendly_ftoa(&reading(0.0)), "0");
    assert_eq!(friendly_ftoa(&reading(-0.0)), "-0");
    assert_eq!(friendly_ftoa(&reading(-2.5)), "-2.5");
}

#[test]
fn zeros_inside_the_fraction_stay() {
    assert_eq!(friendly_ftoa(&reading(1.05)), "1.05");
    assert_eq!(friendly_ftoa(&reading(1.005)), "1.005");
}

#[test]
fn base_trims_text_as_it_stands() {
    assert_eq!(friendly_ftoa_base("3.140"), "3.14");
    assert_eq!(friendly_ftoa_base("5.000"), "5");
    assert_eq!(friendly_ftoa_base("3.141"), "3.141");
    assert_eq!(friendly_ftoa_base(""), "");
    assert_eq!(friendly_ftoa_base("."), "");
    assert_eq!(friendly_ftoa_base("000"), "");
    assert_eq!(friendly_ftoa_base("100"), "1");
    assert_eq!(friendly_ftoa_base("1..0"), "1.");
    assert_eq!(friendly_ftoa_base("1.0.0"), "1.0");
    assert_eq!(friendly_ftoa_base("abc"), "abc");
}

#[test]
fn base_counts_characters_not_bytes() {
    assert_eq!(friendly_ftoa_base("°5.00"), "°5");
    assert_eq!(friendly_ftoa_base("∞.0"), "∞");
    assert_eq!(friendly_ftoa_base("5.0°"), "5.0°");
}

#[test]
fn finite_reading_is_trimmed_whatever_it_holds() {
    let r = Reading::Finite { fixed: String::from("12.500") };
    assert_eq!(friendly_ftoa(&r), "12.5");
}
