use stm32_gpios::level::Level;
use stm32_gpios::record::Record;

#[test]
fn level_from_sample() {
    assert_eq!(Level::from_high(true), Level::High);
    assert_eq!(Level::from_high(false), Level::Low);
    assert!(Level::High.is_high());
    assert!(!Level::High.is_low());
    assert!(Level::Low.is_low());
    assert!(!Level::Low.is_high());
}

#[test]
fn level_toggles_back_and_forth() {
    assert_eq!(Level::High.toggled(), Level::Low);
    assert_eq!(Level::Low.toggled(), Level::High);
    assert_eq!(Level::High.toggled().toggled(), Level::High);
}

#[test]
fn level_names() {
    assert_eq!(Level::High.name(), "high");
    assert_eq!(Level::Low.name(), "low");
}

#[test]
fn record_messages() {
    assert_eq!(Record::Starting.message(), "Starting stm32-gpios");
    assert_eq!(Record::LedOn.message(), "On");
    assert_eq!(Record::LedOff.message(), "Off");
    assert_eq!(Record::DisplayUpdated.message(), "Display updated.");
    let pressed = Record::ButtonChanged { name: String::from("B1"), level: Level::Low };
    assert_eq!(pressed.message(), "B1 changed: low");
    let released = Record::ButtonChanged { name: String::from("B1"), level: Level::High };
    assert_eq!(released.message(), "B1 changed: high");
}

#[test]
fn record_for_led_level() {
    assert_eq!(Record::for_led(Level::High), Record::LedOn);
    assert_eq!(Record::for_led(Level::Low), Record::LedOff);
}

#[test]
fn record_sources() {
    let report = Record::ButtonChanged { name: String::from("B1"), level: Level::High };
    assert!(Record::LedOn.is_from_blink());
    assert!(Record::LedOff.is_from_blink());
    assert!(!Record::Starting.is_from_blink());
    assert!(!Record::DisplayUpdated.is_from_blink());
    assert!(!report.is_from_blink());
    assert!(report.is_from_button());
    assert!(!Record::LedOn.is_from_button());
    assert!(!Record::Starting.is_from_button());
}
