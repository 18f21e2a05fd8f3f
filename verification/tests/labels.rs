use fan_controller::label::{match_power, Label};
use fan_controller::power::PowerLevel;

#[test]
fn match_power_names() {
    assert_eq!(match_power(80).as_str(), "Power: Medium");
    assert_eq!(match_power(100).as_str(), "Power: High");
    assert_eq!(match_power(0).as_str(), "Power: Low");
}

#[test]
fn match_power_reads_unknown_values_as_lowest() {
    assert_eq!(match_power(1).as_str(), "Power: Low");
    assert_eq!(match_power(111).as_str(), "Power: Low");
    assert_eq!(match_power(255).as_str(), "Power: Low");
}

#[test]
fn label_texts() {
    assert_eq!(Label::Boot.text().as_str(), "State: OFF");
    assert_eq!(Label::StateOn.text().as_str(), "State: On");
    assert_eq!(Label::StateOff.text().as_str(), "State: Off");
    assert_eq!(Label::Connecting.text().as_str(), "Connecting...");
    assert_eq!(Label::WifiReady.text().as_str(), "WIFI: Ready");
    assert_eq!(Label::WifiOn.text().as_str(), "WIFI: On");
    assert_eq!(Label::WifiOff.text().as_str(), "WIFI: Off");
}

#[test]
fn power_labels_follow_the_levels() {
    assert_eq!(Label::Power(PowerLevel::Off).text().as_str(), "Power: Low");
    assert_eq!(Label::Power(PowerLevel::Low).text().as_str(), "Power: Medium");
    assert_eq!(Label::Power(PowerLevel::Medium).text().as_str(), "Power: High");
}

#[test]
fn labels_fit_one_display_row() {
    let labels = [
        Label::Boot,
        Label::StateOn,
        Label::StateOff,
        Label::Power(PowerLevel::Off),
        Label::Power(PowerLevel::Low),
        Label::Power(PowerLevel::Medium),
        Label::Connecting,
        Label::WifiReady,
        Label::WifiOn,
        Label::WifiOff,
    ];
    for label in labels {
        let text = label.text();
        assert!(!text.is_empty());
        assert!(text.len() <= 16);
        assert_eq!(text.capacity(), 32);
    }
}
