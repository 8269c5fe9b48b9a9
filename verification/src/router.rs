//! Routing of controller events.
//!
//! A pressed Start + Select chord toggles the settings overlay. While the
//! overlay is open, pad events become navigation; while it is closed
//! ("capture mode"), each pressed button is looked up in the button map and
//! the bound action is forwarded to the target.
use vstd::prelude::*;

use crate::adb::keycode_spec;
use crate::event::{Direction, PadButton, RemoteAction};
use crate::input::{button_spec, nav_from_pad, nav_spec, NavEvent, PadEvent, RawButton};
use crate::mapping::{default_bindings, lookup, ButtonMap};

verus! {

/// The set of controller buttons currently held, each once.
#[derive(Debug)]
pub struct PressedButtons {
    buttons: Vec<PadButton>,
}

impl View for PressedButtons {
    type V = Set<PadButton>;

    closed spec fn view(&self) -> Set<PadButton> {
        self.buttons@.to_set()
    }
}

impl PressedButtons {
    /// No button occurs twice in the list.
    pub closed spec fn wf(&self) -> bool {
        self.buttons@.no_duplicates()
    }

    /// Nothing held.
    pub fn new() -> (r: Self)
        ensures
            r.wf(),
            r@ == Set::<PadButton>::empty(),
    {
        let r = PressedButtons { buttons: Vec::new() };
        assert(r@ =~= Set::<PadButton>::empty());
        r
    }

    /// Whether `b` is held.
    pub fn contains(&self, b: PadButton) -> (r: bool)
        ensures
            r == self@.contains(b),
    {
        let n = self.buttons.len();
        let mut i: usize = 0;
        while i < n
            invariant
                n == self.buttons@.len(),
                i <= n,
                forall|j: int| 0 <= j < i ==> self.buttons@[j] != b,
            decreases n - i,
        {
            if self.buttons[i] == b {
                assert(self.buttons@.contains(b));
                return true;
            }
            i = i + 1;
        }
        false
    }

    /// Mark `b` held.
    pub fn insert(&mut self, b: PadButton)
        requires
            old(self).wf(),
        ensures
            final(self).wf(),
            final(self)@ == old(self)@.insert(b),
    {
        if !self.contains(b) {
            let ghost before = self.buttons@;
            self.buttons.push(b);
            assert(self.buttons@.no_duplicates()) by {
                assert forall|i: int, j: int|
                    0 <= i < self.buttons@.len() && 0 <= j < self.buttons@.len() && i != j implies self.buttons@[i]
                        != self.buttons@[j] by {
                    if i == before.len() as int {
                        assert(!before.contains(b));
                        assert(before[j] != b);
                    } else if j == before.len() as int {
                        assert(!before.contains(b));
                        assert(before[i] != b);
                    }
                }
            }
            assert(self.buttons@.to_set() =~= before.to_set().insert(b)) by {
                assert forall|x: PadButton| self.buttons@.contains(x) <==> (before.contains(x) || x == b) by {
                    if self.buttons@.contains(x) {
                        let k = choose|k: int| 0 <= k < self.buttons@.len() && self.buttons@[k] == x;
                        if k < before.len() {
                            assert(before[k] == x);
                        }
                    }
                    if before.contains(x) {
                        let k = choose|k: int| 0 <= k < before.len() && before[k] == x;
                        assert(self.buttons@[k] == x);
                    }
                    if x == b {
                        assert(self.buttons@[before.len() as int] == x);
                    }
                }
            }
        } else {
            assert(self@ =~= self@.insert(b));
        }
    }

    /// Mark `b` released.
    pub fn remove(&mut self, b: PadButton)
        requires
            old(self).wf(),
        ensures
            final(self).wf(),
            final(self)@ == old(self)@.remove(b),
    {
        let ghost before = self.buttons@;
        let n = self.buttons.len();
        let mut kept: Vec<PadButton> = Vec::new();
        let mut i: usize = 0;
        while i < n
            invariant
                n == self.buttons@.len(),
                self.buttons@ == before,
                before.no_duplicates(),
                i <= n,
                kept@.no_duplicates(),
                forall|x: PadButton| #[trigger] kept@.contains(x) <==> (x != b && exists|j: int|
                    0 <= j < i && before[j] == x),
            decreases n - i,
        {
            let x = self.buttons[i];
            if x != b {
                let ghost prev = kept@;
                assert forall|j: int| 0 <= j < prev.len() implies prev[j] != x by {
                    assert(prev.contains(prev[j]));
                    let k = choose|k: int| 0 <= k < i && before[k] == prev[j];
                    assert(k != i);
                }
                kept.push(x);
                assert forall|a: int, c: int|
                    0 <= a < kept@.len() && 0 <= c < kept@.len() && a != c implies kept@[a]
                        != kept@[c] by {
                    if a == prev.len() as int {
                        assert(kept@[c] == prev[c]);
                    } else if c == prev.len() as int {
                        assert(kept@[a] == prev[a]);
                    } else {
                        assert(kept@[a] == prev[a] && kept@[c] == prev[c]);
                    }
                }
                assert forall|y: PadButton| #[trigger] kept@.contains(y) <==> (y != b && exists|j: int|
                    0 <= j < i + 1 && before[j] == y) by {
                    if kept@.contains(y) {
                        let k = choose|k: int| 0 <= k < kept@.len() && kept@[k] == y;
                        if k < prev.len() {
                            assert(prev[k] == y);
                            assert(prev.contains(y));
                        }
                    }
                    if y != b && exists|j: int| 0 <= j < i + 1 && before[j] == y {
                        let j = choose|j: int| 0 <= j < i + 1 && before[j] == y;
                        if j < i {
                            assert(prev.contains(y));
                            let k = choose|k: int| 0 <= k < prev.len() && prev[k] == y;
                            assert(kept@[k] == y);
                        } else {
                            assert(kept@[prev.len() as int] == y);
                        }
                    }
                }
            } else {
                assert forall|y: PadButton| #[trigger] kept@.contains(y) <==> (y != b && exists|j: int|
                    0 <= j < i + 1 && before[j] == y) by {
                    if y != b && exists|j: int| 0 <= j < i + 1 && before[j] == y {
                        let j = choose|j: int| 0 <= j < i + 1 && before[j] == y;
                        assert(j != i);
                    }
                }
            }
            i = i + 1;
        }
        self.buttons = kept;
        assert(self.buttons@.to_set() =~= before.to_set().remove(b)) by {
            assert forall|x: PadButton| self.buttons@.contains(x) <==> (before.contains(x) && x != b) by {
                if before.contains(x) && x != b {
                    let k = choose|k: int| 0 <= k < before.len() && before[k] == x;
                    assert(exists|j: int| 0 <= j < n && before[j] == x);
                }
            }
        }
    }
}

/// What the app should do with one controller event.
#[derive(Debug)]
pub enum PadRoute {
    /// The Start + Select chord toggled the overlay; it is now shown when
    /// `true`.
    ToggleOverlay(bool),
    /// The overlay is open: apply this navigation intent.
    Navigate(NavEvent),
    /// Capture mode: forward this action to the target.
    Forward(RemoteAction),
    /// Nothing to do.
    Ignore,
}

/// The routing state: the held buttons, whether the toggle chord is being
/// held since it last fired, and whether the overlay is shown.
pub struct PadRouter {
    pressed: PressedButtons,
    chord_active: bool,
    overlay_visible: bool,
}

/// The held buttons after `event`.
pub open spec fn pressed_after(pressed: Set<PadButton>, event: PadEvent) -> Set<PadButton> {
    match event {
        PadEvent::Button { button, pressed: true } => pressed.insert(button),
        PadEvent::Button { button, pressed: false } => pressed.remove(button),
        _ => pressed,
    }
}

/// Whether `pressed` holds the Start + Select chord.
pub open spec fn chord_held(pressed: Set<PadButton>) -> bool {
    pressed.contains(PadButton::Start) && pressed.contains(PadButton::Select)
}

/// The route of `event` when the chord did not fire, with the overlay shown
/// when `overlay`: navigation while it is shown, forwarding of the bound
/// action of a pressed button while it is hidden.
pub open spec fn plain_route(overlay: bool, event: PadEvent, map: Seq<crate::mapping::Binding>) -> PadRoute {
    if overlay {
        match nav_spec(event) {
            Some(n) => PadRoute::Navigate(n),
            None => PadRoute::Ignore,
        }
    } else {
        match event {
            PadEvent::Button { button, pressed: true } => match lookup(map, button) {
                Some(a) => PadRoute::Forward(a),
                None => PadRoute::Ignore,
            },
            _ => PadRoute::Ignore,
        }
    }
}

/// One routing step from state `(pressed, chord_active, overlay)`: the new
/// state and the route. The chord toggles the overlay once when it becomes
/// held; releasing either of its buttons re-arms it.
pub open spec fn route_spec(
    s: (Set<PadButton>, bool, bool),
    event: PadEvent,
    map: Seq<crate::mapping::Binding>,
) -> ((Set<PadButton>, bool, bool), PadRoute) {
    let pressed = pressed_after(s.0, event);
    let chord = chord_held(pressed);
    if chord && !s.1 {
        ((pressed, true, !s.2), PadRoute::ToggleOverlay(!s.2))
    } else {
        ((pressed, chord, s.2), plain_route(s.2, event, map))
    }
}

impl PadRouter {
    /// The routing state as `(held buttons, chord armed-and-held, overlay
    /// shown)`.
    pub closed spec fn state(&self) -> (Set<PadButton>, bool, bool) {
        (self.pressed@, self.chord_active, self.overlay_visible)
    }

    /// The held-button list is duplicate-free.
    pub closed spec fn wf(&self) -> bool {
        self.pressed.wf()
    }

    /// Nothing held, overlay hidden.
    pub fn new() -> (r: Self)
        ensures
            r.wf(),
            r.state() == (Set::<PadButton>::empty(), false, false),
    {
        PadRouter { pressed: PressedButtons::new(), chord_active: false, overlay_visible: false }
    }

    /// Whether the overlay is shown.
    pub fn overlay_visible(&self) -> (r: bool)
        ensures
            r == self.state().2,
    {
        self.overlay_visible
    }

    /// The buttons currently held.
    pub fn pressed(&self) -> (r: &PressedButtons)
        ensures
            r@ == self.state().0,
            self.wf() ==> r.wf(),
    {
        &self.pressed
    }

    /// Show or hide the overlay (the chord, the B button on the overlay or its
    /// close button); returns whether it is now shown.
    pub fn toggle_overlay(&mut self) -> (r: bool)
        requires
            old(self).wf(),
        ensures
            final(self).wf(),
            r == !old(self).state().2,
            final(self).state() == (old(self).state().0, old(self).state().1, r),
    {
        self.overlay_visible = !self.overlay_visible;
        self.overlay_visible
    }

    /// Route one controller event through the chord detector, the overlay
    /// navigation and the button map.
    pub fn handle(&mut self, event: &PadEvent, map: &ButtonMap) -> (r: PadRoute)
        requires
            old(self).wf(),
        ensures
            final(self).wf(),
            (final(self).state(), r) == route_spec(old(self).state(), *event, map.bindings@),
    {
        if let PadEvent::Button { button, pressed } = event {
            if *pressed {
                self.pressed.insert(*button);
            } else {
                self.pressed.remove(*button);
            }
        }
        let chord = self.pressed.contains(PadButton::Start) && self.pressed.contains(
            PadButton::Select,
        );
        if chord && !self.chord_active {
            self.chord_active = true;
            self.overlay_visible = !self.overlay_visible;
            return PadRoute::ToggleOverlay(self.overlay_visible);
        }
        if !chord {
            self.chord_active = false;
        }
        if self.overlay_visible {
            match nav_from_pad(event) {
                Some(nav) => PadRoute::Navigate(nav),
                None => PadRoute::Ignore,
            }
        } else {
            match event {
                PadEvent::Button { button, pressed } => {
                    if *pressed {
                        match map.action_for(*button) {
                            Some(action) => PadRoute::Forward(action.clone()),
                            None => PadRoute::Ignore,
                        }
                    } else {
                        PadRoute::Ignore
                    }
                },
                _ => PadRoute::Ignore,
            }
        }
    }
}

/// Holding the chord toggles the overlay once: while both buttons stay held,
/// further button events do not toggle again.
pub proof fn law_chord_toggles_once(
    s: (Set<PadButton>, bool, bool),
    first: PadEvent,
    second: PadEvent,
    map: Seq<crate::mapping::Binding>,
)
    requires
        !s.1,
        chord_held(pressed_after(s.0, first)),
        chord_held(pressed_after(pressed_after(s.0, first), second)),
    ensures
        route_spec(s, first, map).1 == PadRoute::ToggleOverlay(!s.2),
        !(route_spec(route_spec(s, first, map).0, second, map).1 is ToggleOverlay),
        route_spec(route_spec(s, first, map).0, second, map).0.2 == !s.2,
{
}

/// Releasing a button never forwards anything and never navigates.
pub proof fn law_release_is_inert(overlay: bool, button: PadButton, map: Seq<crate::mapping::Binding>)
    ensures
        plain_route(overlay, PadEvent::Button { button, pressed: false }, map) == PadRoute::Ignore,
{
}

/// In capture mode a pressed, bound button forwards exactly its bound action.
pub proof fn law_capture_mode_forwards_binding(
    button: PadButton,
    map: Seq<crate::mapping::Binding>,
    a: RemoteAction,
)
    requires
        lookup(map, button) == Some(a),
    ensures
        plain_route(false, PadEvent::Button { button, pressed: true }, map) == PadRoute::Forward(
            a,
        ),
{
}

/// A D-pad direction means the same everywhere: the library's D-pad button of
/// direction `d` becomes our D-pad button of `d`; pressed with the overlay
/// open it moves the menu in `d`; pressed in capture mode with the default
/// map it forwards navigation in `d`; and that navigation reaches the device
/// as the same Android key as the raw D-pad button press does.
pub proof fn law_dpad_direction_is_consistent(d: Direction)
    ensures
        ({
            let raw = match d {
                Direction::Up => RawButton::DPadUp,
                Direction::Down => RawButton::DPadDown,
                Direction::Left => RawButton::DPadLeft,
                Direction::Right => RawButton::DPadRight,
            };
            let b = match d {
                Direction::Up => PadButton::DPadUp,
                Direction::Down => PadButton::DPadDown,
                Direction::Left => PadButton::DPadLeft,
                Direction::Right => PadButton::DPadRight,
            };
            let n = match d {
                Direction::Up => NavEvent::Up,
                Direction::Down => NavEvent::Down,
                Direction::Left => NavEvent::Left,
                Direction::Right => NavEvent::Right,
            };
            &&& button_spec(raw) == Some(b)
            &&& plain_route(true, PadEvent::Button { button: b, pressed: true }, default_bindings())
                == PadRoute::Navigate(n)
            &&& plain_route(false, PadEvent::Button { button: b, pressed: true }, default_bindings())
                == PadRoute::Forward(RemoteAction::Navigate(d))
            &&& keycode_spec(RemoteAction::Navigate(d)) == keycode_spec(
                RemoteAction::GamepadButton { button: b, pressed: true },
            )
        }),
{
    crate::mapping::law_default_dpad_navigates();
}

} // verus!
