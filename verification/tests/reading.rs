use polybar_battery::levels::PERCENT_MAX;
use polybar_battery::reading::{ChargeState, Reading};

#[test]
fn clamped_reading_keeps_a_charge_on_the_scale() {
    for percent in 0..=100u32 {
        let reading = Reading::clamped(percent, ChargeState::Discharging);
        assert_eq!(reading, Reading { percent, state: ChargeState::Discharging });
    }
}

#[test]
fn clamped_reading_cuts_an_overshoot() {
    assert_eq!(PERCENT_MAX, 100);
    assert_eq!(Reading::clamped(101, ChargeState::Full).percent, 100);
    assert_eq!(Reading::clamped(250, ChargeState::Charging).percent, 100);
    assert_eq!(Reading::clamped(u32::MAX, ChargeState::Unknown).percent, 100);
    assert_eq!(Reading::clamped(u32::MAX, ChargeState::Unknown).state, ChargeState::Unknown);
}

#[test]
fn only_charging_counts_as_charging() {
    assert!(ChargeState::Charging.charging());
    assert!(!ChargeState::Unknown.charging());
    assert!(!ChargeState::Discharging.charging());
    assert!(!ChargeState::Empty.charging());
    assert!(!ChargeState::Full.charging());
}
