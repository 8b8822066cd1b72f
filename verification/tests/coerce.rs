use hamdb::coerce::{
    coerce_bounded, coerce_latitude, coerce_longitude, empty_as_none, string_as_mdy, Date,
    LAT_MAX_BITS, LAT_MIN_BITS, LON_MAX_BITS, LON_MIN_BITS,
};

#[test]
fn blank_string_is_absent() {
    assert_eq!(empty_as_none("".to_string()), None);
}

#[test]
fn non_blank_string_is_kept_verbatim() {
    assert_eq!(empty_as_none("Smith".to_string()), Some("Smith".to_string()));
}

#[test]
fn date_parses_fixed_pattern() {
    assert_eq!(
        string_as_mdy("06/08/2028"),
        Some(Date { year: 2028, month: 6, day: 8 })
    );
}

#[test]
fn date_wrong_format_is_absent() {
    assert_eq!(string_as_mdy("2028-06-08"), None);
}

#[test]
fn date_blank_is_absent() {
    assert_eq!(string_as_mdy(""), None);
    assert_eq!(string_as_mdy("   "), None);
}

#[test]
fn date_unpadded_is_absent() {
    assert_eq!(string_as_mdy("6/8/2028"), None);
}

#[test]
fn date_trims_whitespace() {
    assert_eq!(
        string_as_mdy(" 06/08/2028 "),
        Some(Date { year: 2028, month: 6, day: 8 })
    );
}

#[test]
fn date_impossible_day_is_absent() {
    assert_eq!(string_as_mdy("02/30/2024"), None);
    assert_eq!(string_as_mdy("04/31/2024"), None);
    assert_eq!(string_as_mdy("01/00/2024"), None);
}

#[test]
fn date_impossible_month_is_absent() {
    assert_eq!(string_as_mdy("13/01/2020"), None);
    assert_eq!(string_as_mdy("00/10/2020"), None);
}

#[test]
fn date_leap_year_rules() {
    assert_eq!(
        string_as_mdy("02/29/2024"),
        Some(Date { year: 2024, month: 2, day: 29 })
    );
    assert_eq!(string_as_mdy("02/29/2023"), None);
    assert_eq!(string_as_mdy("02/29/1900"), None);
    assert_eq!(
        string_as_mdy("02/29/2000"),
        Some(Date { year: 2000, month: 2, day: 29 })
    );
}

#[test]
fn date_trailing_text_is_absent() {
    assert_eq!(string_as_mdy("06/08/2028x"), None);
}

#[test]
fn latitude_bounds_match_ninety_degrees() {
    assert_eq!(LAT_MAX_BITS, (90.0f64).to_bits());
    assert_eq!(LAT_MIN_BITS, (-90.0f64).to_bits());
    assert_eq!(LON_MAX_BITS, (180.0f64).to_bits());
    assert_eq!(LON_MIN_BITS, (-180.0f64).to_bits());
}

#[test]
fn coordinate_in_interval_is_kept() {
    let parsed = "45.0".trim().parse::<f64>().ok().map(f64::to_bits);
    assert_eq!(coerce_bounded(parsed, LAT_MIN_BITS, LAT_MAX_BITS), Some((45.0f64).to_bits()));
}

#[test]
fn coordinate_out_of_interval_is_absent() {
    let parsed = "145.0".trim().parse::<f64>().ok().map(f64::to_bits);
    assert_eq!(coerce_bounded(parsed, LAT_MIN_BITS, LAT_MAX_BITS), None);
}

#[test]
fn coordinate_blank_is_absent() {
    let parsed = "".trim().parse::<f64>().ok().map(f64::to_bits);
    assert_eq!(coerce_bounded(parsed, LAT_MIN_BITS, LAT_MAX_BITS), None);
}

#[test]
fn coordinate_not_a_number_is_absent() {
    let parsed = "not-a-number".trim().parse::<f64>().ok().map(f64::to_bits);
    assert_eq!(coerce_bounded(parsed, LAT_MIN_BITS, LAT_MAX_BITS), None);
}

#[test]
fn latitude_endpoints_are_inside() {
    assert_eq!(coerce_latitude(Some((90.0f64).to_bits())), Some((90.0f64).to_bits()));
    assert_eq!(coerce_latitude(Some((-90.0f64).to_bits())), Some((-90.0f64).to_bits()));
    assert_eq!(coerce_latitude(Some((90.000001f64).to_bits())), None);
    assert_eq!(coerce_latitude(Some((-33.8f64).to_bits())), Some((-33.8f64).to_bits()));
}

#[test]
fn longitude_uses_wider_interval() {
    assert_eq!(coerce_longitude(Some((145.0f64).to_bits())), Some((145.0f64).to_bits()));
    assert_eq!(coerce_longitude(Some((180.5f64).to_bits())), None);
    assert_eq!(coerce_longitude(Some((-180.0f64).to_bits())), Some((-180.0f64).to_bits()));
}

#[test]
fn coordinate_nan_is_absent() {
    assert_eq!(coerce_latitude(Some(f64::NAN.to_bits())), None);
}

#[test]
fn coordinate_zero_is_kept() {
    assert_eq!(coerce_latitude(Some((0.0f64).to_bits())), Some((0.0f64).to_bits()));
    assert_eq!(coerce_latitude(Some((-0.0f64).to_bits())), Some((-0.0f64).to_bits()));
}
