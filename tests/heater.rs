use cold_zero::heater::{HeaterMode, HeaterState, IrButton, PressPolicy, BASELINE_TEMP};

fn on_at(temperature: u8, mode: HeaterMode) -> HeaterState {
    HeaterState { temperature, mode, is_on: true }
}

const MODES: [HeaterMode; 3] = [HeaterMode::HeatLow, HeaterMode::HeatHigh, HeaterMode::Eco];

#[test]
fn next_cycles_through_all_modes() {
    assert_eq!(HeaterMode::HeatLow.next(), HeaterMode::HeatHigh);
    assert_eq!(HeaterMode::HeatHigh.next(), HeaterMode::Eco);
    assert_eq!(HeaterMode::Eco.next(), HeaterMode::HeatLow);
}

#[test]
fn default_is_off_at_baseline() {
    let h = HeaterState::default();
    assert!(!h.is_on);
    assert_eq!(h.temperature, 23);
    assert_eq!(h.mode, HeaterMode::Eco);
}

#[test]
fn change_mode_reaches_every_mode_in_at_most_two_presses() {
    for &from in MODES.iter() {
        for &to in MODES.iter() {
            let mut h = on_at(20, from);
            let mut presses = Vec::new();
            h.change_mode(to, &mut presses);
            assert_eq!(h.mode, to);
            assert_eq!(h.temperature, 20);
            assert!(h.is_on);
            assert!(presses.len() <= 2);
            assert!(presses.iter().all(|b| *b == IrButton::Mode));
        }
    }
}

#[test]
fn change_mode_press_counts() {
    let mut presses = Vec::new();
    let mut h = on_at(23, HeaterMode::Eco);
    h.change_mode(HeaterMode::HeatHigh, &mut presses);
    assert_eq!(presses, vec![IrButton::Mode, IrButton::Mode]);

    let mut presses = Vec::new();
    h.change_mode(HeaterMode::Eco, &mut presses);
    assert_eq!(presses, vec![IrButton::Mode]);

    let mut presses = Vec::new();
    h.change_mode(HeaterMode::Eco, &mut presses);
    assert!(presses.is_empty());
}

#[test]
fn set_temp_exact_presses_once_per_degree() {
    for current in 5u8..=35 {
        for desired in 5u8..=35 {
            let mut h = on_at(current, HeaterMode::HeatLow);
            let mut presses = Vec::new();
            let changed = h.set_temp(desired, PressPolicy::Exact, &mut presses);
            assert_eq!(h.temperature, desired);
            assert_eq!(changed, current != desired);
            assert_eq!(presses.len(), (desired as i32 - current as i32).unsigned_abs() as usize);
        }
    }
}

#[test]
fn set_temp_compensated_adds_one_press() {
    for current in 5u8..=35 {
        for desired in 5u8..=35 {
            let mut h = on_at(current, HeaterMode::HeatLow);
            let mut presses = Vec::new();
            h.set_temp(desired, PressPolicy::CompensateFirstPress, &mut presses);
            assert_eq!(h.temperature, desired);
            let expected = if current == desired {
                0
            } else {
                (desired as i32 - current as i32).unsigned_abs() as usize + 1
            };
            assert_eq!(presses.len(), expected);
        }
    }
}

#[test]
fn set_temp_up_presses_warmer() {
    let mut h = on_at(23, HeaterMode::Eco);
    let mut presses = Vec::new();
    assert!(h.set_temp(26, PressPolicy::CompensateFirstPress, &mut presses));
    assert_eq!(presses, vec![IrButton::Warmer; 4]);
    assert_eq!(h.temperature, 26);
}

#[test]
fn set_temp_down_presses_cooler() {
    let mut h = on_at(23, HeaterMode::Eco);
    let mut presses = Vec::new();
    assert!(h.set_temp(5, PressPolicy::Exact, &mut presses));
    assert_eq!(presses, vec![IrButton::Cooler; 18]);
    assert_eq!(h.temperature, 5);
}

#[test]
fn set_temp_to_current_is_a_benign_skip() {
    let mut h = on_at(35, HeaterMode::HeatHigh);
    let mut presses = vec![IrButton::Power];
    assert!(!h.set_temp(35, PressPolicy::CompensateFirstPress, &mut presses));
    assert_eq!(presses, vec![IrButton::Power]);
    assert_eq!(h, on_at(35, HeaterMode::HeatHigh));
}

#[test]
fn power_on_off_on_returns_to_baseline() {
    let mut h = on_at(31, HeaterMode::HeatLow);
    let mut presses = Vec::new();
    h.power_on(&mut presses);
    let first = h;
    h.power_off(&mut presses);
    assert!(!h.is_on);
    assert_eq!(h.temperature, BASELINE_TEMP);
    assert_eq!(h.mode, HeaterMode::Eco);
    h.power_on(&mut presses);
    assert_eq!(h, first);
    assert!(h.is_on);
    assert_eq!(h.temperature, 23);
    assert_eq!(h.mode, HeaterMode::Eco);
    assert_eq!(presses, vec![IrButton::Power; 3]);
}

#[test]
fn power_presses_append_to_earlier_ones() {
    let mut h = HeaterState::default();
    let mut presses = vec![IrButton::Mode];
    h.power_on(&mut presses);
    assert_eq!(presses, vec![IrButton::Mode, IrButton::Power]);
}
