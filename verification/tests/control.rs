use parallax::control::{handle_event, BirdSystem, GameEvent, Trans};

#[test]
fn close_request_quits() {
    let event = GameEvent::Window { close_requested: true, escape_pressed: false };
    assert_eq!(handle_event(&event), Trans::Quit);
}

#[test]
fn escape_key_quits() {
    let event = GameEvent::Window { close_requested: false, escape_pressed: true };
    assert_eq!(handle_event(&event), Trans::Quit);
}

#[test]
fn quiet_window_event_stays() {
    let event = GameEvent::Window { close_requested: false, escape_pressed: false };
    assert_eq!(handle_event(&event), Trans::Stay);
}

#[test]
fn non_window_event_stays() {
    assert_eq!(handle_event(&GameEvent::Other), Trans::Stay);
}

#[test]
fn fire_action_down_emits() {
    let system = BirdSystem;
    assert!(system.run(Some(true)));
}

#[test]
fn fire_action_up_is_quiet() {
    let system = BirdSystem;
    assert!(!system.run(Some(false)));
}

#[test]
fn unbound_fire_action_is_quiet() {
    let system = BirdSystem;
    assert!(!system.run(None));
}
