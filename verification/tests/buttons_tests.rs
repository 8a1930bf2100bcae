use stick_s3::buttons::{Button, Buttons};

#[test]
fn press_reported_once() {
    let mut b = Buttons::new(true, true);
    assert!(b.btn_a_was_pressed(false));
    assert!(!b.btn_a_was_pressed(false));
    assert!(!b.btn_a_was_pressed(true));
    assert!(b.btn_a_was_pressed(false));
}

#[test]
fn held_at_start_is_not_a_press() {
    let mut b = Buttons::new(false, false);
    assert!(!b.btn_a_was_pressed(false));
    assert!(!b.btn_b_was_pressed(false));
}

#[test]
fn is_pressed_is_low_level() {
    let b = Buttons::new(true, true);
    assert!(b.btn_a_is_pressed(false));
    assert!(!b.btn_a_is_pressed(true));
    assert!(b.btn_b_is_pressed(false));
    assert!(!b.btn_b_is_pressed(true));
}

#[test]
fn update_swallows_edge() {
    let mut b = Buttons::new(true, true);
    b.update(false, false);
    assert!(!b.btn_a_was_pressed(false));
    assert!(!b.btn_b_was_pressed(false));
}

#[test]
fn any_pressed_short_circuits_b() {
    let mut b = Buttons::new(true, true);
    // A edge: B is not sampled, so its pending edge survives
    assert!(b.any_pressed(false, false));
    assert!(b.btn_b_was_pressed(false));
    // no A edge: B is sampled
    let mut c = Buttons::new(true, true);
    assert!(c.any_pressed(true, false));
    assert!(!c.btn_b_was_pressed(false));
}

#[test]
fn buttons_independent() {
    let mut b = Buttons::new(true, true);
    assert!(b.btn_b_was_pressed(false));
    assert!(b.btn_a_was_pressed(false));
    assert_ne!(Button::A, Button::B);
}
