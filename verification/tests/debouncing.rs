use handy_firmware::control_input::buttons::{Button, Buttons, Pins as ButtonsPins};
use handy_firmware::control_input::debouncer::Debouncer;
use handy_firmware::control_input::gates::{Gates, Pins as GatesPins, Trigger};

fn feed(debouncer: &mut Debouncer<4>, raws: &[bool]) -> Vec<bool> {
    raws.iter().map(|raw| debouncer.update(*raw)).collect()
}

#[test]
fn debouncer_commits_after_four_equal_samples() {
    let mut debouncer: Debouncer<4> = Debouncer::new();
    let raws = [false, false, false, false, true, true, true, true, true, false];
    let stable = feed(&mut debouncer, &raws);
    assert_eq!(
        stable,
        vec![false, false, false, false, false, false, false, true, true, true]
    );
}

#[test]
fn debouncer_starts_inactive() {
    let mut debouncer: Debouncer<4> = Debouncer::new();
    assert!(!debouncer.update(false));
    let mut debouncer: Debouncer<4> = Debouncer::new();
    assert!(!debouncer.update(true));
}

#[test]
fn debouncer_needs_the_whole_window() {
    let mut debouncer: Debouncer<4> = Debouncer::new();
    assert_eq!(feed(&mut debouncer, &[true, true, true]), vec![false, false, false]);
    assert!(debouncer.update(true));
}

#[test]
fn debouncer_ignores_single_glitches() {
    let mut debouncer: Debouncer<4> = Debouncer::new();
    feed(&mut debouncer, &[true, true, true, true]);
    let stable = feed(&mut debouncer, &[false, true, true, false, false, false, true]);
    assert_eq!(stable, vec![true, true, true, true, true, true, true]);
    let stable = feed(&mut debouncer, &[false, false, false, false]);
    assert_eq!(stable, vec![true, true, true, false]);
}

#[test]
fn debouncer_releases_after_four_inactive_samples() {
    let mut debouncer: Debouncer<4> = Debouncer::new();
    feed(&mut debouncer, &[true, true, true, true]);
    assert_eq!(
        feed(&mut debouncer, &[false, false, false, false, false]),
        vec![true, true, true, false, false]
    );
}

#[test]
fn debouncer_of_depth_one_follows_the_line() {
    let mut debouncer: Debouncer<1> = Debouncer::new();
    assert!(debouncer.update(true));
    assert!(!debouncer.update(false));
    assert!(debouncer.update(true));
}

#[test]
fn debouncer_of_depth_two() {
    let mut debouncer: Debouncer<2> = Debouncer::new();
    assert!(!debouncer.update(true));
    assert!(debouncer.update(true));
    assert!(debouncer.update(false));
    assert!(!debouncer.update(false));
}

#[test]
fn button_takes_raw_samples() {
    let mut button = Button::new();
    assert!(!button.value());
    let mut seen = Vec::new();
    for raw in [true, true, true, true, false, false, false, false] {
        button.set(raw);
        seen.push(button.value());
    }
    assert_eq!(seen, vec![false, false, false, true, true, true, true, false]);
}

#[test]
fn buttons_start_released() {
    let buttons = Buttons::new();
    assert_eq!(buttons.values(), [false, false]);
}

#[test]
fn buttons_are_active_low() {
    let mut buttons = Buttons::new();
    let pins = ButtonsPins { button_1: false, button_2: true };
    for _ in 0..3 {
        buttons.sample(&pins);
        assert_eq!(buttons.values(), [false, false]);
    }
    buttons.sample(&pins);
    assert_eq!(buttons.values(), [true, false]);
}

#[test]
fn buttons_are_debounced_one_by_one() {
    let mut buttons = Buttons::new();
    for _ in 0..4 {
        buttons.sample(&ButtonsPins { button_1: false, button_2: false });
    }
    assert_eq!(buttons.values(), [true, true]);
    buttons.sample(&ButtonsPins { button_1: true, button_2: false });
    buttons.sample(&ButtonsPins { button_1: true, button_2: true });
    buttons.sample(&ButtonsPins { button_1: true, button_2: false });
    assert_eq!(buttons.values(), [true, true]);
    buttons.sample(&ButtonsPins { button_1: true, button_2: false });
    assert_eq!(buttons.values(), [false, true]);
}

#[test]
fn trigger_takes_raw_samples() {
    let mut trigger = Trigger::new();
    assert!(!trigger.value());
    let mut seen = Vec::new();
    for raw in [true, false, true, true, true, true, false, true] {
        trigger.set(raw);
        seen.push(trigger.value());
    }
    assert_eq!(seen, vec![false, false, false, false, false, true, true, true]);
}

#[test]
fn gates_start_at_rest() {
    let gates = Gates::new();
    assert_eq!(gates.values(), [false, false]);
}

#[test]
fn gates_are_active_high() {
    let mut gates = Gates::new();
    let pins = GatesPins { gate_1: false, gate_2: true };
    for _ in 0..3 {
        gates.sample(&pins);
        assert_eq!(gates.values(), [false, false]);
    }
    gates.sample(&pins);
    assert_eq!(gates.values(), [false, true]);
    for _ in 0..3 {
        gates.sample(&GatesPins { gate_1: false, gate_2: false });
        assert_eq!(gates.values(), [false, true]);
    }
    gates.sample(&GatesPins { gate_1: false, gate_2: false });
    assert_eq!(gates.values(), [false, false]);
}
