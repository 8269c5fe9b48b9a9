use couchcast::router::{PadRoute, PadRouter, PressedButtons};
use couchcast::{ButtonMap, Direction, NavEvent, PadButton, PadEvent, RemoteAction};

fn press(button: PadButton) -> PadEvent {
    PadEvent::Button {
        button,
        pressed: true,
    }
}

fn release(button: PadButton) -> PadEvent {
    PadEvent::Button {
        button,
        pressed: false,
    }
}

fn is_forward(route: &PadRoute, expected: &RemoteAction) -> bool {
    matches!(route, PadRoute::Forward(a) if a == expected)
}

#[test]
fn capture_mode_forwards_bound_buttons() {
    let map = ButtonMap::default();
    let mut router = PadRouter::new();
    assert!(!router.overlay_visible());
    let r = router.handle(&press(PadButton::DPadUp), &map);
    assert!(is_forward(&r, &RemoteAction::Navigate(Direction::Up)));
    // Releases and unbound buttons forward nothing.
    assert!(matches!(router.handle(&release(PadButton::DPadUp), &map), PadRoute::Ignore));
    assert!(matches!(router.handle(&press(PadButton::LeftStick), &map), PadRoute::Ignore));
}

#[test]
fn start_select_chord_toggles_once_per_hold() {
    let map = ButtonMap::default();
    let mut router = PadRouter::new();
    // Start alone is bound to Menu and forwarded.
    let r = router.handle(&press(PadButton::Start), &map);
    assert!(is_forward(&r, &RemoteAction::Menu));
    // Completing the chord toggles the overlay on.
    assert!(matches!(router.handle(&press(PadButton::Select), &map), PadRoute::ToggleOverlay(true)));
    assert!(router.overlay_visible());
    // While the chord is held, other presses navigate instead of toggling.
    assert!(matches!(router.handle(&press(PadButton::DPadDown), &map), PadRoute::Navigate(NavEvent::Down)));
    assert!(matches!(router.handle(&press(PadButton::Select), &map), PadRoute::Ignore));
    assert!(router.overlay_visible());
    // Releasing one of the chord buttons re-arms it; pressing again toggles off.
    router.handle(&release(PadButton::Select), &map);
    assert!(matches!(router.handle(&press(PadButton::Select), &map), PadRoute::ToggleOverlay(false)));
    assert!(!router.overlay_visible());
}

#[test]
fn overlay_mode_navigates() {
    let map = ButtonMap::default();
    let mut router = PadRouter::new();
    assert!(router.toggle_overlay());
    assert!(matches!(router.handle(&press(PadButton::South), &map), PadRoute::Navigate(NavEvent::Activate)));
    assert!(matches!(router.handle(&press(PadButton::East), &map), PadRoute::Navigate(NavEvent::Back)));
    assert!(matches!(router.handle(&press(PadButton::West), &map), PadRoute::Ignore));
    assert!(!router.toggle_overlay());
}

#[test]
fn pressed_buttons_track_presses() {
    let mut set = PressedButtons::new();
    assert!(!set.contains(PadButton::South));
    set.insert(PadButton::South);
    set.insert(PadButton::South);
    set.insert(PadButton::North);
    assert!(set.contains(PadButton::South) && set.contains(PadButton::North));
    set.remove(PadButton::South);
    assert!(!set.contains(PadButton::South));
    assert!(set.contains(PadButton::North));
    set.remove(PadButton::Guide);
    assert!(set.contains(PadButton::North));
}
