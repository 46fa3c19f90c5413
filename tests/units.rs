use rs_es::structured::StructuredValue;
use rs_es::units::{int_to_text, Duration, DurationUnit};
use rustc_serialize::json::Json;

#[test]
fn duration_of_days_renders_with_d() {
    assert_eq!("100d", Duration::new(100, DurationUnit::Day).to_string());
}

#[test]
fn negative_duration_keeps_its_sign() {
    assert_eq!("-5h", Duration::new(-5, DurationUnit::Hour).to_string());
}

#[test]
fn zero_duration() {
    assert_eq!("0m", Duration::new(0, DurationUnit::Minute).to_string());
}

#[test]
fn extreme_amounts() {
    assert_eq!(
        "-9223372036854775808w",
        Duration::new(i64::MIN, DurationUnit::Week).to_string()
    );
    assert_eq!(
        "9223372036854775807d",
        Duration::new(i64::MAX, DurationUnit::Day).to_string()
    );
}

#[test]
fn amounts_match_std_decimal() {
    for n in [1i64, 9, 10, 11, 99, 100, 101, 1234567890, -1, -10, -99, -100] {
        assert_eq!(n.to_string(), int_to_text(n));
    }
}

#[test]
fn unit_codes() {
    assert_eq!("w", DurationUnit::Week.to_string());
    assert_eq!("d", DurationUnit::Day.to_string());
    assert_eq!("h", DurationUnit::Hour.to_string());
    assert_eq!("m", DurationUnit::Minute.to_string());
}

#[test]
fn duration_json_is_string_leaf() {
    let d = Duration::new(100, DurationUnit::Day);
    assert_eq!(Json::String("100d".to_string()), d.to_json());
    let d = Duration::new(-5, DurationUnit::Hour);
    assert_eq!(Json::String("-5h".to_string()), d.to_json());
}

#[test]
fn duration_rendering_repeats() {
    let d = Duration::new(42, DurationUnit::Week);
    assert_eq!(d.to_string(), d.to_string());
    assert_eq!(d.to_json(), d.to_json());
    assert_eq!("42w", d.to_string());
}

#[test]
fn duration_structured_value_is_text() {
    let d = Duration::new(7, DurationUnit::Minute);
    assert_eq!(StructuredValue::Text("7m".to_string()), d.to_structured_value());
    assert_eq!(d.to_structured_value(), d.to_structured_value());
}
