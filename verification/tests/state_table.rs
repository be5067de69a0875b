use gamepad_sync::gamepad::{ControllerState, EventKind, GamepadManager, NormalizedEvent, Publication};
use gamepad_sync::names::NameMap;

fn manager() -> GamepadManager {
    GamepadManager::new(Ok(())).unwrap()
}

fn event(controller_id: usize, kind: EventKind, timestamp: u64) -> NormalizedEvent {
    NormalizedEvent { controller_id, kind, timestamp }
}

fn button(name: &str, pressed: bool) -> EventKind {
    EventKind::ButtonChanged { name: name.to_string(), pressed }
}

fn axis(name: &str, value: f32) -> EventKind {
    EventKind::AxisChanged { name: name.to_string(), value: value.to_bits() }
}

#[test]
fn a_new_table_is_empty() {
    let m = manager();
    assert!(m.get_controller_states().is_empty());
    assert_eq!(m.last_event_time(), None);
    assert!(m.get_controller_state(0).is_none());
}

#[test]
fn a_backend_that_fails_to_start_gives_no_table() {
    match GamepadManager::new(Err("no udev".to_string())) {
        Ok(_) => panic!("a table was made"),
        Err(message) => assert_eq!(message, "Failed to initialize gamepad: no udev"),
    }
}

#[test]
fn connect_press_disconnect() {
    let mut m = manager();

    let sent = m.apply_event(&event(0, EventKind::Connected, 100));
    let states = m.get_controller_states();
    assert_eq!(states.len(), 1);
    let state = &states[&0];
    assert_eq!(state.buttons.len(), 0);
    assert_eq!(state.axes.len(), 0);
    assert!(state.connected);
    assert_eq!(state.controller_id, 0);
    match sent {
        Some(Publication::Connected(id)) => assert_eq!(id, 0),
        other => panic!("unexpected publication {:?}", other),
    }
    assert_eq!(Publication::Connected(0).topic(), "gamepad-connected");

    let sent = m.apply_event(&event(0, button("A", true), 101)).unwrap();
    let state = m.get_controller_state(0).unwrap();
    assert_eq!(state.buttons.get(&"A".to_string()), Some(true));
    assert_eq!(state.buttons.len(), 1);
    assert_eq!(sent.topic(), "gamepad-input");
    match sent {
        Publication::Input(payload) => {
            assert_eq!(payload.controller_id, 0);
            assert_eq!(payload.event_type, "button-pressed");
            assert_eq!(payload.button, Some("A".to_string()));
            assert_eq!(payload.axis, None);
            assert_eq!(payload.value, None);
            assert_eq!(payload.timestamp, 101);
        },
        other => panic!("unexpected publication {:?}", other),
    }

    let sent = m.apply_event(&event(0, EventKind::Disconnected, 102)).unwrap();
    assert!(m.get_controller_states().is_empty());
    assert_eq!(sent.topic(), "gamepad-disconnected");
    match sent {
        Publication::Disconnected(id) => assert_eq!(id, 0),
        other => panic!("unexpected publication {:?}", other),
    }
}

#[test]
fn an_entry_exists_exactly_after_a_connect() {
    let mut m = manager();
    m.apply_event(&event(7, EventKind::Connected, 1));
    assert!(m.get_controller_state(7).is_some());
    m.apply_event(&event(7, EventKind::Disconnected, 2));
    assert!(m.get_controller_state(7).is_none());
    m.apply_event(&event(7, EventKind::Connected, 3));
    assert!(m.get_controller_state(7).is_some());
    m.apply_event(&event(7, EventKind::Connected, 4));
    assert_eq!(m.get_controller_states().len(), 1);
    m.apply_event(&event(7, EventKind::Disconnected, 5));
    m.apply_event(&event(7, EventKind::Disconnected, 6));
    assert!(m.get_controller_states().is_empty());
}

#[test]
fn a_second_connect_starts_from_a_fresh_state() {
    let mut m = manager();
    m.apply_event(&event(1, EventKind::Connected, 1));
    m.apply_event(&event(1, button("South", true), 2));
    m.apply_event(&event(1, EventKind::Connected, 3));
    let state = m.get_controller_state(1).unwrap();
    assert_eq!(state.buttons.len(), 0);
    assert!(state.connected);
}

#[test]
fn disconnect_of_one_controller_leaves_the_others() {
    let mut m = manager();
    m.apply_event(&event(1, EventKind::Connected, 1));
    m.apply_event(&event(2, EventKind::Connected, 2));
    m.apply_event(&event(2, button("East", true), 3));
    m.apply_event(&event(1, EventKind::Disconnected, 4));
    assert!(m.get_controller_state(1).is_none());
    let other = m.get_controller_state(2).unwrap();
    assert_eq!(other.controller_id, 2);
    assert_eq!(other.buttons.get(&"East".to_string()), Some(true));
}

#[test]
fn updates_without_a_connect_change_nothing_but_are_published() {
    let mut m = manager();
    let sent = m.apply_event(&event(3, button("A", true), 10));
    assert!(m.get_controller_states().is_empty());
    match sent {
        Some(Publication::Input(payload)) => {
            assert_eq!(payload.controller_id, 3);
            assert_eq!(payload.event_type, "button-pressed");
        },
        other => panic!("unexpected publication {:?}", other),
    }
    let sent = m.apply_event(&event(3, axis("LeftStickX", 0.5), 11));
    assert!(m.get_controller_states().is_empty());
    assert!(sent.is_some());
    m.update_button_state(4, "B".to_string(), false);
    m.update_axis_state(4, "LeftZ".to_string(), 1.0f32.to_bits());
    assert!(m.get_controller_states().is_empty());
    assert_eq!(m.last_event_time(), Some(11));
}

#[test]
fn a_release_clears_the_flag_and_keeps_the_name() {
    let mut m = manager();
    m.apply_event(&event(0, EventKind::Connected, 1));
    m.apply_event(&event(0, button("A", true), 2));
    let sent = m.apply_event(&event(0, button("A", false), 3)).unwrap();
    let state = m.get_controller_state(0).unwrap();
    assert_eq!(state.buttons.get(&"A".to_string()), Some(false));
    assert_eq!(state.buttons.len(), 1);
    match sent {
        Publication::Input(payload) => {
            assert_eq!(payload.event_type, "button-released");
            assert_eq!(payload.button, Some("A".to_string()));
        },
        other => panic!("unexpected publication {:?}", other),
    }
}

#[test]
fn an_axis_change_is_recorded_and_published_however_small() {
    let mut m = manager();
    m.apply_event(&event(0, EventKind::Connected, 1));
    let sent = m.apply_event(&event(0, axis("LeftStickX", 0.01), 2)).unwrap();
    let state = m.get_controller_state(0).unwrap();
    let stored = state.axes.get(&"LeftStickX".to_string()).unwrap();
    assert_eq!(f32::from_bits(stored), 0.01);
    assert_eq!(state.buttons.len(), 0);
    match sent {
        Publication::Input(payload) => {
            assert_eq!(payload.event_type, "axis-changed");
            assert_eq!(payload.axis, Some("LeftStickX".to_string()));
            assert_eq!(payload.button, None);
            assert_eq!(payload.value.map(f32::from_bits), Some(0.01));
            assert_eq!(payload.timestamp, 2);
        },
        other => panic!("unexpected publication {:?}", other),
    }
    m.apply_event(&event(0, axis("LeftStickX", -1.0), 3));
    let state = m.get_controller_state(0).unwrap();
    assert_eq!(state.axes.get(&"LeftStickX".to_string()).map(f32::from_bits), Some(-1.0));
    assert_eq!(state.axes.len(), 1);
}

#[test]
fn other_events_only_move_the_clock() {
    let mut m = manager();
    m.apply_event(&event(0, EventKind::Connected, 1));
    let sent = m.apply_event(&event(0, EventKind::Other, 9));
    assert!(sent.is_none());
    assert_eq!(m.last_event_time(), Some(9));
    assert_eq!(m.get_controller_states().len(), 1);
}

#[test]
fn a_batch_is_applied_and_published_in_order() {
    let mut m = manager();
    let events = vec![
        event(0, EventKind::Connected, 1),
        event(1, EventKind::Connected, 2),
        event(0, EventKind::Other, 3),
        event(0, button("A", true), 4),
        event(1, EventKind::Disconnected, 5),
        event(0, axis("RightStickY", 0.25), 6),
    ];
    let sent = m.poll_events(&events);
    assert_eq!(sent.len(), 5);
    assert!(matches!(sent[0], Publication::Connected(0)));
    assert!(matches!(sent[1], Publication::Connected(1)));
    match &sent[2] {
        Publication::Input(payload) => assert_eq!(payload.timestamp, 4),
        other => panic!("unexpected publication {:?}", other),
    }
    assert!(matches!(sent[3], Publication::Disconnected(1)));
    match &sent[4] {
        Publication::Input(payload) => assert_eq!(payload.timestamp, 6),
        other => panic!("unexpected publication {:?}", other),
    }
    assert_eq!(m.last_event_time(), Some(6));
    let states = m.get_controller_states();
    assert_eq!(states.len(), 1);
    assert_eq!(states[&0].buttons.get(&"A".to_string()), Some(true));
    assert_eq!(states[&0].axes.get(&"RightStickY".to_string()), Some(0.25f32.to_bits()));
}

#[test]
fn an_empty_batch_changes_nothing() {
    let mut m = manager();
    m.apply_event(&event(0, EventKind::Connected, 5));
    let sent = m.poll_events(&Vec::new());
    assert!(sent.is_empty());
    assert_eq!(m.last_event_time(), Some(5));
    assert_eq!(m.get_controller_states().len(), 1);
}

#[test]
fn a_snapshot_is_a_copy() {
    let mut m = manager();
    m.apply_event(&event(0, EventKind::Connected, 1));
    m.apply_event(&event(0, button("A", true), 2));
    let snapshot = m.get_controller_states();
    let one = m.get_controller_state(0).unwrap();
    m.apply_event(&event(0, button("B", true), 3));
    m.apply_event(&event(0, EventKind::Disconnected, 4));
    assert_eq!(snapshot.len(), 1);
    assert_eq!(snapshot[&0].buttons.len(), 1);
    assert_eq!(snapshot[&0].buttons.get(&"A".to_string()), Some(true));
    assert_eq!(snapshot[&0].controller_id, 0);
    assert!(snapshot[&0].connected);
    assert_eq!(one.buttons.len(), 1);
}

#[test]
fn a_fresh_state_is_connected_and_empty() {
    let state = ControllerState::new(12);
    assert_eq!(state.controller_id, 12);
    assert!(state.connected);
    assert_eq!(state.buttons.len(), 0);
    assert_eq!(state.axes.len(), 0);
    let copy = state.clone();
    assert_eq!(copy.controller_id, 12);
}

#[test]
fn a_name_map_keeps_the_order_of_first_insertion() {
    let map: NameMap<bool> = NameMap::new();
    let map = map.with("b".to_string(), true);
    let map = map.with("a".to_string(), false);
    let map = map.with("b".to_string(), false);
    assert_eq!(map.len(), 2);
    assert_eq!(map.name_at(0), "b");
    assert_eq!(map.value_at(0), false);
    assert_eq!(map.name_at(1), "a");
    assert_eq!(map.value_at(1), false);
    assert_eq!(map.get(&"a".to_string()), Some(false));
    assert_eq!(map.get(&"c".to_string()), None);
    let copy = map.clone();
    assert_eq!(copy.len(), 2);
    assert_eq!(copy.get(&"b".to_string()), Some(false));
}
