use handy_firmware::control_input::switch::{Pins, Switch};

fn lines(selected: &[usize]) -> Pins {
    let low = |place: usize| !selected.contains(&place);
    Pins {
        switch_1: low(0),
        switch_2: low(1),
        switch_3: low(2),
        switch_4: low(3),
        switch_5: low(4),
        switch_6: low(5),
        switch_7: low(6),
        switch_8: low(7),
    }
}

fn settle(switch: &mut Switch, pins: &Pins) {
    for _ in 0..4 {
        switch.sample(pins);
    }
}

#[test]
fn switch_starts_at_first_position() {
    let switch = Switch::new();
    assert_eq!(switch.value(), 0);
}

#[test]
fn switch_reports_each_position() {
    for place in 0..8 {
        let mut switch = Switch::new();
        settle(&mut switch, &lines(&[place]));
        assert_eq!(switch.value() as usize, place);
    }
}

#[test]
fn switch_moves_only_after_four_samples() {
    let mut switch = Switch::new();
    let pins = lines(&[5]);
    for _ in 0..3 {
        switch.sample(&pins);
        assert_eq!(switch.value(), 0);
    }
    switch.sample(&pins);
    assert_eq!(switch.value(), 5);
}

#[test]
fn switch_keeps_position_when_no_line_is_active() {
    let mut switch = Switch::new();
    settle(&mut switch, &lines(&[6]));
    assert_eq!(switch.value(), 6);
    settle(&mut switch, &lines(&[]));
    assert_eq!(switch.value(), 6);
    settle(&mut switch, &lines(&[]));
    assert_eq!(switch.value(), 6);
}

#[test]
fn switch_lowest_active_line_wins() {
    let mut switch = Switch::new();
    settle(&mut switch, &lines(&[7, 3, 5]));
    assert_eq!(switch.value(), 3);
    settle(&mut switch, &lines(&[7, 5]));
    assert_eq!(switch.value(), 5);
    settle(&mut switch, &lines(&[0, 1, 2, 3, 4, 5, 6, 7]));
    assert_eq!(switch.value(), 0);
}

#[test]
fn switch_holds_the_old_line_while_the_new_one_settles() {
    let mut switch = Switch::new();
    settle(&mut switch, &lines(&[2]));
    let pins = lines(&[4]);
    for _ in 0..3 {
        switch.sample(&pins);
        assert_eq!(switch.value(), 2);
    }
    switch.sample(&pins);
    assert_eq!(switch.value(), 4);
}

#[test]
fn switch_value_stays_in_range() {
    let mut switch = Switch::new();
    for round in 0..64usize {
        switch.sample(&lines(&[round % 8, (round * 3) % 8]));
        assert!(switch.value() < 8);
    }
}
