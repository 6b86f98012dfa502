use ble_temp::select::{contains_str, select_peripheral};

fn names(list: &[Option<&str>]) -> Vec<Option<String>> {
    list.iter().map(|n| n.map(|s| s.to_string())).collect()
}

#[test]
fn selection_rule_first_match() {
    // First advertised name containing `Temperature` wins, in enumeration order.
    let ns = names(&[
        Some("Kitchen"),
        Some("Outdoor Temperature"),
        Some("Room Temperature"),
    ]);
    assert_eq!(select_peripheral(&ns), Some(1));
}

#[test]
fn s5_selection() {
    let ns = names(&[Some("Foo"), Some("TemperatureSensor"), Some("Temperature Probe")]);
    assert_eq!(select_peripheral(&ns), Some(1));
}

#[test]
fn skips_peripherals_without_name() {
    let ns = names(&[None, Some("Temperature X")]);
    assert_eq!(select_peripheral(&ns), Some(1));
}

#[test]
fn no_match_is_none() {
    let ns = names(&[Some("Kitchen"), None, Some("thermometer")]);
    assert_eq!(select_peripheral(&ns), None);
    assert_eq!(select_peripheral(&Vec::new()), None);
}

#[test]
fn match_is_case_sensitive() {
    let ns = names(&[Some("outdoor temperature")]);
    assert_eq!(select_peripheral(&ns), None);
}

#[test]
fn substring_positions() {
    assert!(contains_str("Temperature", "Temperature"));
    assert!(contains_str("my Temperature", "Temperature"));
    assert!(contains_str("TemperatureSensor", "Temperature"));
    assert!(!contains_str("Temperatur", "Temperature"));
    assert!(!contains_str("", "Temperature"));
    assert!(contains_str("anything", ""));
    // Non-ASCII haystack around the needle.
    assert!(contains_str("nappali h\u{0151}m\u{00e9}r\u{0151} Temperature \u{2603}", "Temperature"));
}
