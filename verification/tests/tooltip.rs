use battery_tray::telemetry::TelemetrySample;
use battery_tray::tooltip::{
    is_well_formed_tooltip, tooltip_text, ABSENT_TOOLTIP, DEFAULT_TOOLTIP, READING_PREFIX,
    READING_SUFFIX,
};
use battery_tray::watts::Watts;

fn reading_of(watts: &str) -> TelemetrySample {
    TelemetrySample::Reading { watts: Watts::parse(watts).expect("a decimal numeral") }
}

#[test]
fn reading_formats_with_prefix_and_unit() {
    assert_eq!(tooltip_text(&reading_of("47.25")), Some("Battery: 47.25 W".to_string()));
}

#[test]
fn reading_of_a_float_keeps_every_digit() {
    let watts: f32 = 47.25;
    let sample = reading_of(&format!("{}", watts));
    assert_eq!(tooltip_text(&sample), Some("Battery: 47.25 W".to_string()));
    let fine: f32 = 12.345679;
    assert_eq!(
        tooltip_text(&reading_of(&format!("{}", fine))),
        Some(format!("Battery: {} W", fine))
    );
}

#[test]
fn reading_of_a_whole_number_has_no_point() {
    assert_eq!(tooltip_text(&reading_of("5")), Some("Battery: 5 W".to_string()));
    assert_eq!(tooltip_text(&reading_of("0")), Some("Battery: 0 W".to_string()));
}

#[test]
fn reading_of_what_is_no_number_is_still_a_reading() {
    assert_eq!(tooltip_text(&reading_of("NaN")), Some("Battery: NaN W".to_string()));
    assert_eq!(tooltip_text(&reading_of("-inf")), Some("Battery: -inf W".to_string()));
}

#[test]
fn absent_formats_to_the_fixed_text() {
    assert_eq!(tooltip_text(&TelemetrySample::Absent), Some("No battery found".to_string()));
}

#[test]
fn failed_query_has_no_text() {
    assert_eq!(tooltip_text(&TelemetrySample::QueryFailed), None);
}

#[test]
fn the_fixed_texts_are_what_they_are() {
    assert_eq!(ABSENT_TOOLTIP, "No battery found");
    assert_eq!(READING_PREFIX, "Battery: ");
    assert_eq!(READING_SUFFIX, " W");
    assert_eq!(DEFAULT_TOOLTIP, "winit - awesome windowing lib");
}

#[test]
fn the_three_forms_are_well_formed() {
    assert!(is_well_formed_tooltip(DEFAULT_TOOLTIP));
    assert!(is_well_formed_tooltip(ABSENT_TOOLTIP));
    assert!(is_well_formed_tooltip("Battery: 47.25 W"));
    assert!(is_well_formed_tooltip("Battery: 0 W"));
    assert!(is_well_formed_tooltip("Battery: -0.5 W"));
    assert!(is_well_formed_tooltip("Battery: NaN W"));
}

#[test]
fn every_formatted_text_is_well_formed() {
    for watts in ["47.25", "5", "0.0000001", "inf"] {
        let text = tooltip_text(&reading_of(watts)).unwrap();
        assert!(is_well_formed_tooltip(&text));
    }
    let absent = tooltip_text(&TelemetrySample::Absent).unwrap();
    assert!(is_well_formed_tooltip(&absent));
}

#[test]
fn partial_texts_are_not_well_formed() {
    assert!(!is_well_formed_tooltip(""));
    assert!(!is_well_formed_tooltip("Battery: "));
    assert!(!is_well_formed_tooltip("Battery:  W"));
    assert!(!is_well_formed_tooltip("Battery: 47.25"));
    assert!(!is_well_formed_tooltip("Battery: 47.25 "));
    assert!(!is_well_formed_tooltip("47.25 W"));
    assert!(!is_well_formed_tooltip("attery: 47.25 W"));
    assert!(!is_well_formed_tooltip("No battery"));
    assert!(!is_well_formed_tooltip("Battery: 47. W"));
    assert!(!is_well_formed_tooltip("battery: 47.25 W"));
    assert!(!is_well_formed_tooltip("Battery: 47.25 w"));
}

#[test]
fn composite_texts_are_not_well_formed() {
    assert!(!is_well_formed_tooltip("Battery: 1 WBattery: 2 W"));
    assert!(!is_well_formed_tooltip("Battery: 47.25 WNo battery found"));
    assert!(!is_well_formed_tooltip("No battery foundNo battery found"));
    assert!(!is_well_formed_tooltip("No battery foundBattery: 1 W"));
    assert!(!is_well_formed_tooltip("Battery: No battery found W"));
    assert!(!is_well_formed_tooltip("Battery: 47.25 W W"));
    assert!(!is_well_formed_tooltip("Battery: Battery: 1 W"));
}

#[test]
fn texts_beyond_ascii_are_told_apart_by_character() {
    assert!(!is_well_formed_tooltip("Bättery: 47.25 W"));
    assert!(!is_well_formed_tooltip("Battery: ４７ W"));
    assert!(!is_well_formed_tooltip("Battery: 47.25 Ｗ"));
    assert!(!is_well_formed_tooltip("電池"));
}
