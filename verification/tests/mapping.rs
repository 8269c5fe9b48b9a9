use couchcast::{ButtonMap, Direction, PadButton, RemoteAction};

#[test]
fn default_map_covers_dpad_and_face_buttons() {
    let map = ButtonMap::default();
    assert_eq!(
        map.action_for(PadButton::DPadUp),
        Some(&RemoteAction::Navigate(Direction::Up))
    );
    assert_eq!(
        map.action_for(PadButton::South),
        Some(&RemoteAction::Select)
    );
    assert_eq!(map.action_for(PadButton::East), Some(&RemoteAction::Back));
}

#[test]
fn set_rebinds_in_place() {
    let mut map = ButtonMap::default();
    map.set(PadButton::South, RemoteAction::Home);
    assert_eq!(map.action_for(PadButton::South), Some(&RemoteAction::Home));
    // No duplicate binding was added.
    let count = map
        .bindings
        .iter()
        .filter(|b| b.button == PadButton::South)
        .count();
    assert_eq!(count, 1);
}

#[test]
fn set_appends_an_unbound_button() {
    let mut map = ButtonMap::default();
    let before = map.bindings.len();
    assert_eq!(map.action_for(PadButton::LeftTrigger), None);
    map.set(PadButton::LeftTrigger, RemoteAction::VolumeDown);
    assert_eq!(map.bindings.len(), before + 1);
    assert_eq!(map.bindings[before].button, PadButton::LeftTrigger);
    assert_eq!(
        map.action_for(PadButton::LeftTrigger),
        Some(&RemoteAction::VolumeDown)
    );
    // Other bindings are untouched.
    assert_eq!(map.action_for(PadButton::East), Some(&RemoteAction::Back));
}

#[test]
fn clear_removes_only_that_button() {
    let mut map = ButtonMap::default();
    map.clear(PadButton::North);
    assert_eq!(map.action_for(PadButton::North), None);
    assert_eq!(map.action_for(PadButton::Start), Some(&RemoteAction::Menu));
    assert_eq!(map.bindings.len(), 11);
    // Clearing an unbound button changes nothing.
    map.clear(PadButton::LeftStick);
    assert_eq!(map.bindings.len(), 11);
}

#[test]
fn lookup_uses_the_first_binding_of_a_button() {
    let mut map = ButtonMap { bindings: Vec::new() };
    map.bindings.push(couchcast::Binding {
        button: PadButton::West,
        action: RemoteAction::Play,
    });
    map.bindings.push(couchcast::Binding {
        button: PadButton::West,
        action: RemoteAction::Pause,
    });
    assert_eq!(map.action_for(PadButton::West), Some(&RemoteAction::Play));
    map.set(PadButton::West, RemoteAction::Stop);
    assert_eq!(map.bindings[0].action, RemoteAction::Stop);
    assert_eq!(map.bindings[1].action, RemoteAction::Pause);
    map.clear(PadButton::West);
    assert!(map.bindings.is_empty());
}

#[test]
fn default_map_leaves_triggers_and_sticks_unbound() {
    let map = ButtonMap::default();
    assert_eq!(map.bindings.len(), 12);
    for b in [
        PadButton::LeftTrigger,
        PadButton::RightTrigger,
        PadButton::LeftStick,
        PadButton::RightStick,
        PadButton::Select,
    ] {
        assert_eq!(map.action_for(b), None);
    }
    assert_eq!(map.action_for(PadButton::Guide), Some(&RemoteAction::Home));
    assert_eq!(
        map.action_for(PadButton::RightBumper),
        Some(&RemoteAction::FastForward)
    );
}
