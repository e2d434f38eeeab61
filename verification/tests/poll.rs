use polybar_battery::battery::PolybarBat;
use polybar_battery::blink::Blink;
use polybar_battery::poll::{poll_cycle, sleep_millis, BLINK_SLEEP_MS, IDLE_SLEEP_MS};
use polybar_battery::reading::{ChargeState, Reading};

fn reading(percent: u32, state: ChargeState) -> Reading {
    Reading { percent, state }
}

fn bat(percent: u32, state: ChargeState) -> PolybarBat {
    PolybarBat::new(reading(percent, state))
}

/// Outcomes of a cycle in which every read failed.
fn failed(count: usize) -> Vec<Option<Reading>> {
    vec![None; count]
}

#[test]
fn two_batteries_one_critical() {
    let mut bats = vec![bat(0, ChargeState::Unknown), bat(0, ChargeState::Unknown)];
    let outcomes = vec![
        Some(reading(75, ChargeState::Discharging)),
        Some(reading(15, ChargeState::Discharging)),
    ];
    let cycle = poll_cycle(&mut bats, &outcomes);
    assert_eq!(cycle.line, "%{F#5f87ff}75% \u{f241}%{F-} %{F#d81860}15% \u{f244}%{F-}");
    assert_eq!(bats[0].blink(), Blink::Disabled);
    assert_eq!(bats[1].blink(), Blink::Hide);
    assert_eq!(cycle.sleep_ms, 500);
}

#[test]
fn two_batteries_over_several_cycles() {
    let mut bats = vec![bat(75, ChargeState::Discharging), bat(15, ChargeState::Discharging)];
    let cycle = poll_cycle(&mut bats, &failed(2));
    assert_eq!(cycle.line, "%{F#5f87ff}75% \u{f241}%{F-} %{F#d81860}15% \u{f244}%{F-}");
    assert_eq!(bats[1].blink(), Blink::Hide);
    assert_eq!(cycle.sleep_ms, 500);
    let cycle = poll_cycle(&mut bats, &failed(2));
    assert_eq!(cycle.line, "%{F#5f87ff}75% \u{f241}%{F-} %{F#101010}15% \u{f244}%{F-}");
    assert_eq!(bats[1].blink(), Blink::Show);
    assert_eq!(cycle.sleep_ms, 500);
    let cycle = poll_cycle(&mut bats, &failed(2));
    assert_eq!(cycle.line, "%{F#5f87ff}75% \u{f241}%{F-} %{F#d81860}15% \u{f244}%{F-}");
    assert_eq!(bats[1].blink(), Blink::Hide);
    assert_eq!(cycle.sleep_ms, 500);
}

#[test]
fn no_battery_gives_an_empty_line() {
    let mut bats: Vec<PolybarBat> = Vec::new();
    let cycle = poll_cycle(&mut bats, &failed(0));
    assert_eq!(cycle.line, "");
    assert_eq!(cycle.sleep_ms, 2000);
    assert!(bats.is_empty());
}

#[test]
fn outcomes_without_a_battery_are_passed_over() {
    let mut bats: Vec<PolybarBat> = Vec::new();
    let cycle = poll_cycle(&mut bats, &vec![Some(reading(3, ChargeState::Discharging))]);
    assert_eq!(cycle.line, "");
    assert_eq!(cycle.sleep_ms, 2000);
    assert!(bats.is_empty());

    let mut bats = vec![bat(50, ChargeState::Discharging)];
    let outcomes = vec![Some(reading(51, ChargeState::Discharging)), Some(reading(3, ChargeState::Discharging))];
    let cycle = poll_cycle(&mut bats, &outcomes);
    assert_eq!(cycle.line, "%{F#5f87ff}51% \u{f242}%{F-}");
    assert_eq!(cycle.sleep_ms, 2000);
    assert_eq!(bats.len(), 1);
}

#[test]
fn battery_without_an_outcome_keeps_its_reading() {
    let mut bats = vec![bat(50, ChargeState::Discharging), bat(60, ChargeState::Charging)];
    let outcomes = vec![Some(reading(49, ChargeState::Discharging))];
    let cycle = poll_cycle(&mut bats, &outcomes);
    assert_eq!(cycle.line, "%{F#5f87ff}49% \u{f242}%{F-} %{F#5f87ff}60% \u{f241} \u{f5e7}%{F-}");
    assert_eq!(bats[0].percent(), 49);
    assert_eq!(bats[1].percent(), 60);
    assert_eq!(bats[1].state(), ChargeState::Charging);
}

#[test]
fn failed_read_shows_the_stale_reading() {
    let mut bats = vec![bat(88, ChargeState::Discharging), bat(15, ChargeState::Discharging)];
    let outcomes = vec![None, Some(reading(14, ChargeState::Discharging))];
    let cycle = poll_cycle(&mut bats, &outcomes);
    assert_eq!(cycle.line, "%{F#5f87ff}88% \u{f240}%{F-} %{F#d81860}14% \u{f244}%{F-}");
    assert_eq!(bats[0].percent(), 88);
    assert_eq!(bats[1].percent(), 14);
    let cycle = poll_cycle(&mut bats, &failed(2));
    assert_eq!(cycle.line, "%{F#5f87ff}88% \u{f240}%{F-} %{F#101010}14% \u{f244}%{F-}");
}

#[test]
fn single_battery_has_no_separator() {
    let mut bats = vec![bat(55, ChargeState::Charging)];
    let cycle = poll_cycle(&mut bats, &failed(1));
    assert_eq!(cycle.line, "%{F#5f87ff}55% \u{f242} \u{f5e7}%{F-}");
    assert_eq!(cycle.sleep_ms, 2000);
}

#[test]
fn sleep_is_long_when_nothing_blinks() {
    for count in 0..6usize {
        let mut bats: Vec<PolybarBat> = (0..count).map(|_| bat(60, ChargeState::Discharging)).collect();
        let cycle = poll_cycle(&mut bats, &failed(count));
        assert_eq!(cycle.sleep_ms, 2000);
        assert!(bats.iter().all(|b| !b.blink_enabled()));
    }
}

#[test]
fn sleep_is_short_when_any_battery_blinks() {
    for count in 1..6usize {
        for low in 0..count {
            let mut bats: Vec<PolybarBat> = (0..count)
                .map(|i| if i == low { bat(9, ChargeState::Discharging) } else { bat(60, ChargeState::Charging) })
                .collect();
            let cycle = poll_cycle(&mut bats, &failed(count));
            assert_eq!(cycle.sleep_ms, 500);
            for (i, b) in bats.iter().enumerate() {
                assert_eq!(b.blink_enabled(), i == low);
            }
        }
    }
}

#[test]
fn sleep_is_short_when_all_batteries_blink() {
    let mut bats = vec![bat(1, ChargeState::Discharging), bat(20, ChargeState::Unknown), bat(0, ChargeState::Empty)];
    let cycle = poll_cycle(&mut bats, &failed(3));
    assert_eq!(cycle.sleep_ms, 500);
    assert!(bats.iter().all(|b| b.blink() == Blink::Hide));
}

#[test]
fn sleep_goes_back_to_long_once_the_charger_is_in() {
    let mut bats = vec![bat(9, ChargeState::Discharging), bat(50, ChargeState::Discharging)];
    assert_eq!(poll_cycle(&mut bats, &failed(2)).sleep_ms, 500);
    let outcomes = vec![Some(reading(9, ChargeState::Charging)), None];
    let cycle = poll_cycle(&mut bats, &outcomes);
    assert_eq!(cycle.line, "%{F#d81860}9% \u{f244} \u{f5e7}%{F-} %{F#5f87ff}50% \u{f242}%{F-}");
    assert_eq!(cycle.sleep_ms, 2000);
    assert!(!bats[0].blink_enabled());
}

#[test]
fn sleep_follows_the_phase_after_the_cycle() {
    // The battery blinked until now, but this cycle finds it recovered.
    let mut bats = vec![bat(20, ChargeState::Discharging)];
    assert_eq!(poll_cycle(&mut bats, &failed(1)).sleep_ms, 500);
    let cycle = poll_cycle(&mut bats, &vec![Some(reading(21, ChargeState::Discharging))]);
    assert_eq!(cycle.line, "%{F#ff5f87}21% \u{f243}%{F-}");
    assert_eq!(cycle.sleep_ms, 2000);
}

#[test]
fn sleep_durations() {
    assert_eq!(BLINK_SLEEP_MS, 500);
    assert_eq!(IDLE_SLEEP_MS, 2000);
    assert_eq!(sleep_millis(true), 500);
    assert_eq!(sleep_millis(false), 2000);
}

#[test]
fn three_batteries_are_joined_by_single_spaces() {
    let mut bats = vec![
        bat(100, ChargeState::Full),
        bat(41, ChargeState::Unknown),
        bat(21, ChargeState::Discharging),
    ];
    let cycle = poll_cycle(&mut bats, &failed(3));
    assert_eq!(
        cycle.line,
        "%{F#2ecc71}100% \u{f240} \u{f1e6}%{F-} %{F#5f87ff}41% \u{f242}%{F-} %{F#ff5f87}21% \u{f243}%{F-}"
    );
    assert_eq!(cycle.sleep_ms, 2000);
}
