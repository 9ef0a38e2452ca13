use tango_core::input::{ControllerState, State, StateTypes};

struct Pad;

impl StateTypes for Pad {
    type Key = u32;
    type Button = u8;
}

#[test]
fn new_controller_is_at_rest() {
    let c = ControllerState::<Pad>::new(3);
    for axis in 0..3 {
        assert_eq!(c.axis(axis), 0);
        assert_eq!(c.axis_delta(axis), 0);
        assert!(!c.is_axis_leaving_threshold(axis, 100));
    }
    assert!(!c.is_button_held(1));
    assert!(!c.is_button_pressed(1));
    assert!(!c.is_button_released(1));
}

#[test]
fn no_controller_is_connected_at_first() {
    let s = State::<Pad>::new();
    assert!(s.iter_controllers().is_empty());
    assert!(s.controller_ids().is_empty());
    assert!(!s.is_key_held(4));
    assert!(!s.is_key_pressed(4));
    assert!(!s.is_key_released(4));
}

#[test]
fn key_is_pressed_held_and_released_across_digests() {
    let mut s = State::<Pad>::new();
    s.handle_key_down(30);
    assert!(s.is_key_held(30));
    assert!(s.is_key_pressed(30));
    assert!(!s.is_key_released(30));
    assert!(!s.is_key_held(31));
    s.digest();
    assert!(s.is_key_held(30));
    assert!(!s.is_key_pressed(30));
    assert!(!s.is_key_released(30));
    s.handle_key_up(30);
    assert!(!s.is_key_held(30));
    assert!(!s.is_key_pressed(30));
    assert!(s.is_key_released(30));
    s.digest();
    assert!(!s.is_key_released(30));
}

#[test]
fn clear_keys_lets_every_key_go() {
    let mut s = State::<Pad>::new();
    s.handle_key_down(1);
    s.handle_key_down(2);
    s.digest();
    s.clear_keys();
    assert!(!s.is_key_held(1));
    assert!(!s.is_key_held(2));
    assert!(s.is_key_released(1));
    assert!(s.is_key_released(2));
}

#[test]
fn controllers_connect_and_disconnect() {
    let mut s = State::<Pad>::new();
    s.handle_controller_connected(7, 2);
    s.handle_controller_connected(9, 4);
    let mut ids = s.controller_ids();
    ids.sort();
    assert_eq!(ids, vec![7, 9]);
    let mut seen: Vec<u32> = s.iter_controllers().iter().map(|entry| entry.0).collect();
    seen.sort();
    assert_eq!(seen, vec![7, 9]);
    s.handle_controller_disconnected(7);
    assert_eq!(s.controller_ids(), vec![9]);
    s.handle_controller_disconnected(7);
    assert_eq!(s.controller_ids(), vec![9]);
}

#[test]
fn events_of_an_unknown_controller_are_ignored() {
    let mut s = State::<Pad>::new();
    s.handle_controller_axis_motion(1, 0, 500);
    s.handle_controller_button_down(1, 3);
    s.handle_controller_button_up(1, 3);
    assert!(s.iter_controllers().is_empty());
}

#[test]
fn controller_buttons_are_pressed_held_and_released() {
    let mut s = State::<Pad>::new();
    s.handle_controller_connected(1, 2);
    s.handle_controller_button_down(1, 5);
    {
        let controllers = s.iter_controllers();
        let (id, c) = controllers[0];
        assert_eq!(id, 1);
        assert!(c.is_button_held(5));
        assert!(c.is_button_pressed(5));
        assert!(!c.is_button_released(5));
        assert!(!c.is_button_held(6));
    }
    s.digest();
    {
        let controllers = s.iter_controllers();
        let (_, c) = controllers[0];
        assert!(c.is_button_held(5));
        assert!(!c.is_button_pressed(5));
    }
    s.handle_controller_button_up(1, 5);
    {
        let controllers = s.iter_controllers();
        let (_, c) = controllers[0];
        assert!(!c.is_button_held(5));
        assert!(c.is_button_released(5));
    }
}

#[test]
fn controller_axes_move() {
    let mut s = State::<Pad>::new();
    s.handle_controller_connected(1, 2);
    s.handle_controller_axis_motion(1, 1, 12000);
    {
        let controllers = s.iter_controllers();
        let (_, c) = controllers[0];
        assert_eq!(c.axis(0), 0);
        assert_eq!(c.axis(1), 12000);
        assert_eq!(c.axis_delta(1), 12000);
        assert!(c.is_axis_leaving_threshold(1, 8000));
        assert!(!c.is_axis_leaving_threshold(1, 12000));
        assert!(!c.is_axis_leaving_threshold(1, 0));
        assert!(!c.is_axis_leaving_threshold(0, 8000));
    }
    s.digest();
    s.handle_controller_axis_motion(1, 1, -9000);
    {
        let controllers = s.iter_controllers();
        let (_, c) = controllers[0];
        assert_eq!(c.axis(1), -9000);
        assert_eq!(c.axis_delta(1), -21000);
        assert!(!c.is_axis_leaving_threshold(1, 8000));
        // Below a negative threshold counts only where the axis was not above it before.
        assert!(!c.is_axis_leaving_threshold(1, -8000));
    }
    s.digest();
    s.handle_controller_axis_motion(1, 1, -9500);
    {
        let controllers = s.iter_controllers();
        let (_, c) = controllers[0];
        // It counts where the axis was at or below the threshold already.
        assert!(c.is_axis_leaving_threshold(1, -9000));
        assert!(c.is_axis_leaving_threshold(1, -1));
        assert!(!c.is_axis_leaving_threshold(1, -9400));
        assert!(!c.is_axis_leaving_threshold(1, -9500));
        assert_eq!(c.axis_delta(1), -500);
    }
}

#[test]
fn reconnecting_a_controller_resets_it() {
    let mut s = State::<Pad>::new();
    s.handle_controller_connected(1, 1);
    s.handle_controller_button_down(1, 2);
    s.handle_controller_axis_motion(1, 0, 77);
    s.handle_controller_connected(1, 3);
    let controllers = s.iter_controllers();
    let (_, c) = controllers[0];
    assert!(!c.is_button_held(2));
    assert_eq!(c.axis(0), 0);
    assert_eq!(c.axis(2), 0);
}

#[test]
fn controller_digest_takes_now_as_last() {
    let mut c = ControllerState::<Pad>::new(1);
    c.digest();
    assert_eq!(c.axis_delta(0), 0);
    assert!(!c.is_button_pressed(0));
}
