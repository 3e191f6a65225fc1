use carambolage::{Controller, ControllerLayout, Key, KeyState};

fn keys(pressed: &[Key]) -> KeyState {
    let mut k = KeyState::new();
    for p in pressed {
        k.press(*p);
    }
    k
}

#[test]
fn key_state_reports_pressed_keys_only() {
    let k = keys(&[Key::W, Key::F3]);
    assert!(k.is_down(Key::W));
    assert!(k.is_down(Key::F3));
    assert!(!k.is_down(Key::S));
    assert!(!KeyState::new().is_down(Key::Escape));
}

#[test]
fn new_controller_is_at_rest() {
    let c = Controller::new(true, &ControllerLayout::Arrows);
    assert_eq!(c.layout(), ControllerLayout::Arrows);
    assert!(c.is_active());
    assert_eq!(c.throttle(), 0);
    assert_eq!(c.steer(), 0);
}

#[test]
fn wasd_controller_reads_its_keys() {
    let mut c = Controller::new(true, &ControllerLayout::WASD);
    c.process_input(&keys(&[Key::W, Key::A]));
    assert_eq!(c.throttle(), 1);
    assert_eq!(c.steer(), -1);
    c.process_input(&keys(&[Key::S, Key::D]));
    assert_eq!(c.throttle(), -1);
    assert_eq!(c.steer(), 1);
    c.process_input(&keys(&[Key::W, Key::S, Key::A, Key::D]));
    assert_eq!(c.throttle(), 0);
    assert_eq!(c.steer(), 0);
}

#[test]
fn w_moves_only_the_wasd_controller() {
    let mut wasd = Controller::new(true, &ControllerLayout::WASD);
    let mut arrows = Controller::new(true, &ControllerLayout::Arrows);
    let k = keys(&[Key::W]);
    wasd.process_input(&k);
    arrows.process_input(&k);
    assert_eq!(wasd.throttle(), 1);
    assert_eq!(arrows.throttle(), 0);
    assert_eq!(arrows.steer(), 0);
    let k = keys(&[Key::Up, Key::Right]);
    wasd.process_input(&k);
    arrows.process_input(&k);
    assert_eq!(wasd.throttle(), 0);
    assert_eq!(wasd.steer(), 0);
    assert_eq!(arrows.throttle(), 1);
    assert_eq!(arrows.steer(), 1);
}

#[test]
fn inactive_controller_stays_at_rest() {
    let mut c = Controller::new(false, &ControllerLayout::Arrows);
    c.process_input(&keys(&[Key::Up, Key::Left]));
    assert_eq!(c.throttle(), 0);
    assert_eq!(c.steer(), 0);
}
