//! The editable controller -> action button map.
//!
//! Stored as a plain ordered list of bindings so it serializes to clean,
//! human-editable configuration and is easy to render in the settings UI.
//! Applied in "capture mode" (overlay closed): each incoming [`PadButton`] is
//! looked up and, if bound, the resulting [`RemoteAction`] is forwarded to the
//! target.
use vstd::prelude::*;

use crate::event::{Direction, PadButton, RemoteAction};

verus! {

/// A single controller-button -> action binding.
#[derive(Debug, PartialEq)]
pub struct Binding {
    pub button: PadButton,
    pub action: RemoteAction,
}

impl Clone for Binding {
    fn clone(&self) -> (r: Self)
        ensures
            r == *self,
    {
        Binding { button: self.button, action: self.action.clone() }
    }
}

/// An ordered list of [`Binding`]s.
#[derive(Debug, Clone, PartialEq)]
pub struct ButtonMap {
    pub bindings: Vec<Binding>,
}

/// The action of the first binding for `b` in `s`, if any: what the map
/// forwards when `b` is pressed.
pub open spec fn lookup(s: Seq<Binding>, b: PadButton) -> Option<RemoteAction>
    decreases s.len(),
{
    if s.len() == 0 {
        None
    } else if s[0].button == b {
        Some(s[0].action)
    } else {
        lookup(s.drop_first(), b)
    }
}

/// `s` with `b` bound to `a`: the first binding for `b` gets the new action in
/// place, or, if `b` is unbound, a new binding is appended.
pub open spec fn rebind(s: Seq<Binding>, b: PadButton, a: RemoteAction) -> Seq<Binding>
    decreases s.len(),
{
    if s.len() == 0 {
        seq![Binding { button: b, action: a }]
    } else if s[0].button == b {
        s.update(0, Binding { button: b, action: a })
    } else {
        seq![s[0]] + rebind(s.drop_first(), b, a)
    }
}

/// `s` without any binding for `b`, the other bindings in their order.
pub open spec fn unbind(s: Seq<Binding>, b: PadButton) -> Seq<Binding>
    decreases s.len(),
{
    if s.len() == 0 {
        Seq::empty()
    } else if s[0].button == b {
        unbind(s.drop_first(), b)
    } else {
        seq![s[0]] + unbind(s.drop_first(), b)
    }
}

/// No button is bound twice.
pub open spec fn unique_buttons(s: Seq<Binding>) -> bool {
    forall|i: int, j: int|
        0 <= i < j < s.len() ==> #[trigger] s[i].button != #[trigger] s[j].button
}

/// Whether some binding of `s` is for `b`.
pub open spec fn binds(s: Seq<Binding>, b: PadButton) -> bool {
    exists|i: int| 0 <= i < s.len() && #[trigger] s[i].button == b
}

/// The default action table (see [`ButtonMap::default`]).
pub open spec fn default_bindings() -> Seq<Binding> {
    seq![
        Binding { button: PadButton::DPadUp, action: RemoteAction::Navigate(Direction::Up) },
        Binding { button: PadButton::DPadDown, action: RemoteAction::Navigate(Direction::Down) },
        Binding { button: PadButton::DPadLeft, action: RemoteAction::Navigate(Direction::Left) },
        Binding { button: PadButton::DPadRight, action: RemoteAction::Navigate(Direction::Right) },
        Binding { button: PadButton::South, action: RemoteAction::Select },
        Binding { button: PadButton::East, action: RemoteAction::Back },
        Binding { button: PadButton::North, action: RemoteAction::Menu },
        Binding { button: PadButton::West, action: RemoteAction::PlayPause },
        Binding { button: PadButton::Start, action: RemoteAction::Menu },
        Binding { button: PadButton::Guide, action: RemoteAction::Home },
        Binding { button: PadButton::LeftBumper, action: RemoteAction::Rewind },
        Binding { button: PadButton::RightBumper, action: RemoteAction::FastForward },
    ]
}

proof fn lemma_lookup_skip(s: Seq<Binding>, b: PadButton, i: int)
    requires
        0 <= i < s.len(),
    ensures
        lookup(s.skip(i), b) == if s[i].button == b {
            Some(s[i].action)
        } else {
            lookup(s.skip(i + 1), b)
        },
{
    assert(s.skip(i).drop_first() =~= s.skip(i + 1));
    assert(s.skip(i)[0] == s[i]);
}

proof fn lemma_rebind_at(s: Seq<Binding>, b: PadButton, a: RemoteAction, i: int)
    requires
        0 <= i < s.len(),
        s[i].button == b,
        forall|j: int| 0 <= j < i ==> #[trigger] s[j].button != b,
    ensures
        rebind(s, b, a) == s.update(i, Binding { button: b, action: a }),
    decreases i,
{
    if i == 0 {
    } else {
        let t = s.drop_first();
        assert forall|j: int| 0 <= j < i - 1 implies #[trigger] t[j].button != b by {
            assert(t[j] == s[j + 1]);
        }
        assert(s[0].button != b);
        lemma_rebind_at(t, b, a, i - 1);
        assert(seq![s[0]] + t.update(i - 1, Binding { button: b, action: a }) =~= s.update(
            i,
            Binding { button: b, action: a },
        ));
    }
}

proof fn lemma_rebind_absent(s: Seq<Binding>, b: PadButton, a: RemoteAction)
    requires
        forall|j: int| 0 <= j < s.len() ==> #[trigger] s[j].button != b,
    ensures
        rebind(s, b, a) == s.push(Binding { button: b, action: a }),
    decreases s.len(),
{
    if s.len() == 0 {
        assert(rebind(s, b, a) =~= s.push(Binding { button: b, action: a }));
    } else {
        let t = s.drop_first();
        assert forall|j: int| 0 <= j < t.len() implies #[trigger] t[j].button != b by {
            assert(t[j] == s[j + 1]);
        }
        assert(s[0].button != b);
        lemma_rebind_absent(t, b, a);
        assert(seq![s[0]] + t.push(Binding { button: b, action: a }) =~= s.push(
            Binding { button: b, action: a },
        ));
    }
}

proof fn lemma_unbind_skip(s: Seq<Binding>, b: PadButton, i: int)
    requires
        0 <= i < s.len(),
    ensures
        unbind(s.skip(i), b) == if s[i].button == b {
            unbind(s.skip(i + 1), b)
        } else {
            seq![s[i]] + unbind(s.skip(i + 1), b)
        },
{
    assert(s.skip(i).drop_first() =~= s.skip(i + 1));
    assert(s.skip(i)[0] == s[i]);
}

impl ButtonMap {
    /// The action currently bound to `button`, if any.
    pub fn action_for(&self, button: PadButton) -> (r: Option<&RemoteAction>)
        ensures
            match lookup(self.bindings@, button) {
                Some(a) => r matches Some(x) && *x == a,
                None => r is None,
            },
    {
        let n = self.bindings.len();
        let mut i: usize = 0;
        assert(self.bindings@.skip(0) =~= self.bindings@);
        while i < n
            invariant
                n == self.bindings@.len(),
                i <= n,
                lookup(self.bindings@, button) == lookup(self.bindings@.skip(i as int), button),
            decreases n - i,
        {
            proof {
                lemma_lookup_skip(self.bindings@, button, i as int);
            }
            if self.bindings[i].button == button {
                return Some(&self.bindings[i].action);
            }
            i = i + 1;
        }
        assert(self.bindings@.skip(n as int).len() == 0);
        None
    }

    /// Bind (or rebind) `button` to `action`.
    pub fn set(&mut self, button: PadButton, action: RemoteAction)
        ensures
            final(self).bindings@ == rebind(old(self).bindings@, button, action),
    {
        let n = self.bindings.len();
        let mut i: usize = 0;
        while i < n
            invariant
                n == self.bindings@.len(),
                self.bindings@ == old(self).bindings@,
                i <= n,
                forall|j: int| 0 <= j < i ==> #[trigger] self.bindings@[j].button != button,
            decreases n - i,
        {
            if self.bindings[i].button == button {
                proof {
                    lemma_rebind_at(self.bindings@, button, action, i as int);
                }
                self.bindings.set(i, Binding { button, action });
                return;
            }
            i = i + 1;
        }
        proof {
            lemma_rebind_absent(self.bindings@, button, action);
        }
        self.bindings.push(Binding { button, action });
    }

    /// Remove any binding for `button`.
    pub fn clear(&mut self, button: PadButton)
        ensures
            final(self).bindings@ == unbind(old(self).bindings@, button),
    {
        let n = self.bindings.len();
        let mut kept: Vec<Binding> = Vec::new();
        let mut i: usize = 0;
        assert(self.bindings@.skip(0) =~= self.bindings@);
        assert(kept@ + unbind(self.bindings@, button) =~= unbind(self.bindings@, button));
        while i < n
            invariant
                n == self.bindings@.len(),
                i <= n,
                unbind(self.bindings@, button) == kept@ + unbind(
                    self.bindings@.skip(i as int),
                    button,
                ),
            decreases n - i,
        {
            proof {
                lemma_unbind_skip(self.bindings@, button, i as int);
            }
            if self.bindings[i].button != button {
                let ghost before = kept@;
                kept.push(self.bindings[i].clone());
                assert(before + (seq![self.bindings@[i as int]] + unbind(
                    self.bindings@.skip(i + 1),
                    button,
                )) =~= kept@ + unbind(self.bindings@.skip(i + 1), button));
            }
            i = i + 1;
        }
        assert(self.bindings@.skip(n as int).len() == 0);
        assert(kept@ + unbind(self.bindings@.skip(n as int), button) =~= kept@);
        self.bindings = kept;
    }

    /// A sensible default mapping for driving an Android TV / Fire TV UI with a
    /// game controller.
    pub fn default() -> (r: Self)
        ensures
            r.bindings@ == default_bindings(),
    {
        let bindings = vec![
            Binding { button: PadButton::DPadUp, action: RemoteAction::Navigate(Direction::Up) },
            Binding {
                button: PadButton::DPadDown,
                action: RemoteAction::Navigate(Direction::Down),
            },
            Binding {
                button: PadButton::DPadLeft,
                action: RemoteAction::Navigate(Direction::Left),
            },
            Binding {
                button: PadButton::DPadRight,
                action: RemoteAction::Navigate(Direction::Right),
            },
            Binding { button: PadButton::South, action: RemoteAction::Select },
            Binding { button: PadButton::East, action: RemoteAction::Back },
            Binding { button: PadButton::North, action: RemoteAction::Menu },
            Binding { button: PadButton::West, action: RemoteAction::PlayPause },
            Binding { button: PadButton::Start, action: RemoteAction::Menu },
            Binding { button: PadButton::Guide, action: RemoteAction::Home },
            Binding { button: PadButton::LeftBumper, action: RemoteAction::Rewind },
            Binding { button: PadButton::RightBumper, action: RemoteAction::FastForward },
        ];
        assert(bindings@ =~= default_bindings());
        ButtonMap { bindings }
    }
}

/// After binding `b` to `a`, looking `b` up gives `a`.
pub proof fn law_set_then_lookup(s: Seq<Binding>, b: PadButton, a: RemoteAction)
    ensures
        lookup(rebind(s, b, a), b) == Some(a),
    decreases s.len(),
{
    if s.len() == 0 {
    } else if s[0].button == b {
        assert(rebind(s, b, a)[0] == Binding { button: b, action: a });
    } else {
        law_set_then_lookup(s.drop_first(), b, a);
        assert((seq![s[0]] + rebind(s.drop_first(), b, a)).drop_first() =~= rebind(
            s.drop_first(),
            b,
            a,
        ));
    }
}

/// Binding `b` leaves the lookup of every other button unchanged.
pub proof fn law_set_keeps_other_buttons(
    s: Seq<Binding>,
    b: PadButton,
    a: RemoteAction,
    other: PadButton,
)
    requires
        other != b,
    ensures
        lookup(rebind(s, b, a), other) == lookup(s, other),
    decreases s.len(),
{
    let r = rebind(s, b, a);
    if s.len() == 0 {
        assert(r[0].button == b);
        assert(r.drop_first().len() == 0);
        assert(lookup(r, other) == lookup(r.drop_first(), other));
    } else if s[0].button == b {
        assert(r[0].button == b);
        assert(r.drop_first() =~= s.drop_first());
        assert(lookup(r, other) == lookup(r.drop_first(), other));
    } else {
        law_set_keeps_other_buttons(s.drop_first(), b, a, other);
        assert((seq![s[0]] + rebind(s.drop_first(), b, a)).drop_first() =~= rebind(
            s.drop_first(),
            b,
            a,
        ));
    }
}

proof fn lemma_rebind_buttons(s: Seq<Binding>, b: PadButton, a: RemoteAction, c: PadButton)
    ensures
        binds(rebind(s, b, a), c) <==> (binds(s, c) || c == b),
        rebind(s, b, a).len() == if binds(s, b) {
            s.len()
        } else {
            s.len() + 1
        },
    decreases s.len(),
{
    let r = rebind(s, b, a);
    if s.len() == 0 {
        assert(r[0].button == b);
    } else if s[0].button == b {
        assert(binds(s, b));
        if binds(s, c) {
            let i = choose|i: int| 0 <= i < s.len() && #[trigger] s[i].button == c;
            if i == 0 {
                assert(r[0].button == c);
            } else {
                assert(r[i].button == c);
            }
        }
        if binds(r, c) {
            let i = choose|i: int| 0 <= i < r.len() && #[trigger] r[i].button == c;
            if i != 0 {
                assert(s[i].button == c);
            }
        }
    } else {
        let t = s.drop_first();
        lemma_rebind_buttons(t, b, a, c);
        assert(r == seq![s[0]] + rebind(t, b, a));
        assert(binds(s, b) == binds(t, b)) by {
            if binds(s, b) {
                let i = choose|i: int| 0 <= i < s.len() && #[trigger] s[i].button == b;
                assert(t[i - 1].button == b);
            }
            if binds(t, b) {
                let i = choose|i: int| 0 <= i < t.len() && #[trigger] t[i].button == b;
                assert(s[i + 1].button == b);
            }
        }
        if binds(s, c) {
            let i = choose|i: int| 0 <= i < s.len() && #[trigger] s[i].button == c;
            if i == 0 {
                assert(r[0].button == c);
            } else {
                assert(t[i - 1].button == c);
                let k = choose|k: int| 0 <= k < rebind(t, b, a).len() && #[trigger] rebind(
                    t,
                    b,
                    a,
                )[k].button == c;
                assert(r[k + 1].button == c);
            }
        }
        if c == b {
            let k = choose|k: int| 0 <= k < rebind(t, b, a).len() && #[trigger] rebind(
                t,
                b,
                a,
            )[k].button == c;
            assert(r[k + 1].button == c);
        }
        if binds(r, c) {
            let i = choose|i: int| 0 <= i < r.len() && #[trigger] r[i].button == c;
            if i == 0 {
                assert(s[0].button == c);
            } else {
                assert(rebind(t, b, a)[i - 1].button == c);
                if binds(t, c) {
                    let k = choose|k: int| 0 <= k < t.len() && #[trigger] t[k].button == c;
                    assert(s[k + 1].button == c);
                }
            }
        }
    }
}

/// Binding a button in a map where no button is bound twice keeps it so: a
/// rebind happens in place and never adds a duplicate.
pub proof fn law_set_keeps_buttons_unique(s: Seq<Binding>, b: PadButton, a: RemoteAction)
    requires
        unique_buttons(s),
    ensures
        unique_buttons(rebind(s, b, a)),
    decreases s.len(),
{
    let r = rebind(s, b, a);
    if s.len() == 0 {
    } else if s[0].button == b {
        assert forall|i: int, j: int| 0 <= i < j < r.len() implies #[trigger] r[i].button
            != #[trigger] r[j].button by {
            if i == 0 {
                assert(s[0].button != s[j].button);
            } else {
                assert(s[i].button != s[j].button);
            }
        }
    } else {
        let t = s.drop_first();
        assert(unique_buttons(t)) by {
            assert forall|i: int, j: int| 0 <= i < j < t.len() implies #[trigger] t[i].button
                != #[trigger] t[j].button by {
                assert(s[i + 1].button != s[j + 1].button);
            }
        }
        law_set_keeps_buttons_unique(t, b, a);
        let rt = rebind(t, b, a);
        assert(r == seq![s[0]] + rt);
        assert forall|i: int, j: int| 0 <= i < j < r.len() implies #[trigger] r[i].button
            != #[trigger] r[j].button by {
            if i == 0 {
                lemma_rebind_buttons(t, b, a, s[0].button);
                if r[j].button == s[0].button {
                    assert(rt[j - 1].button == s[0].button);
                    assert(binds(rt, s[0].button));
                    if binds(t, s[0].button) {
                        let k = choose|k: int| 0 <= k < t.len() && #[trigger] t[k].button
                            == s[0].button;
                        assert(s[k + 1].button == s[0].button);
                    }
                }
            } else {
                assert(rt[i - 1].button != rt[j - 1].button);
            }
        }
    }
}

/// After clearing `b`, nothing is bound to it.
pub proof fn law_clear_unbinds(s: Seq<Binding>, b: PadButton)
    ensures
        lookup(unbind(s, b), b) is None,
    decreases s.len(),
{
    if s.len() == 0 {
    } else if s[0].button == b {
        law_clear_unbinds(s.drop_first(), b);
    } else {
        law_clear_unbinds(s.drop_first(), b);
        assert((seq![s[0]] + unbind(s.drop_first(), b)).drop_first() =~= unbind(
            s.drop_first(),
            b,
        ));
    }
}

/// Clearing `b` leaves the lookup of every other button unchanged.
pub proof fn law_clear_keeps_other_buttons(s: Seq<Binding>, b: PadButton, other: PadButton)
    requires
        other != b,
    ensures
        lookup(unbind(s, b), other) == lookup(s, other),
    decreases s.len(),
{
    if s.len() == 0 {
    } else if s[0].button == b {
        law_clear_keeps_other_buttons(s.drop_first(), b, other);
    } else {
        law_clear_keeps_other_buttons(s.drop_first(), b, other);
        assert((seq![s[0]] + unbind(s.drop_first(), b)).drop_first() =~= unbind(
            s.drop_first(),
            b,
        ));
    }
}

proof fn lemma_lookup_after_misses(s: Seq<Binding>, b: PadButton, i: int)
    requires
        0 <= i <= s.len(),
        forall|j: int| 0 <= j < i ==> #[trigger] s[j].button != b,
    ensures
        lookup(s, b) == lookup(s.skip(i), b),
    decreases i,
{
    if i == 0 {
        assert(s.skip(0) =~= s);
    } else {
        lemma_lookup_after_misses(s, b, i - 1);
        lemma_lookup_skip(s, b, i - 1);
    }
}

/// What the default table binds `b` to (`None` for unbound buttons).
pub open spec fn default_action(b: PadButton) -> Option<RemoteAction> {
    match b {
        PadButton::DPadUp => Some(RemoteAction::Navigate(Direction::Up)),
        PadButton::DPadDown => Some(RemoteAction::Navigate(Direction::Down)),
        PadButton::DPadLeft => Some(RemoteAction::Navigate(Direction::Left)),
        PadButton::DPadRight => Some(RemoteAction::Navigate(Direction::Right)),
        PadButton::South => Some(RemoteAction::Select),
        PadButton::East => Some(RemoteAction::Back),
        PadButton::North => Some(RemoteAction::Menu),
        PadButton::West => Some(RemoteAction::PlayPause),
        PadButton::Start => Some(RemoteAction::Menu),
        PadButton::Guide => Some(RemoteAction::Home),
        PadButton::LeftBumper => Some(RemoteAction::Rewind),
        PadButton::RightBumper => Some(RemoteAction::FastForward),
        _ => None,
    }
}

/// The default map binds no button twice and binds each button as the table
/// of [`default_action`] says: the D-pad to navigation, A to select, B to back,
/// and the triggers, sticks and Select to nothing.
pub proof fn law_default_map(b: PadButton)
    ensures
        unique_buttons(default_bindings()),
        lookup(default_bindings(), b) == default_action(b),
{
    let d = default_bindings();
    assert(unique_buttons(d));
    let k: int = match b {
        PadButton::DPadUp => 0,
        PadButton::DPadDown => 1,
        PadButton::DPadLeft => 2,
        PadButton::DPadRight => 3,
        PadButton::South => 4,
        PadButton::East => 5,
        PadButton::North => 6,
        PadButton::West => 7,
        PadButton::Start => 8,
        PadButton::Guide => 9,
        PadButton::LeftBumper => 10,
        PadButton::RightBumper => 11,
        _ => 12,
    };
    assert forall|j: int| 0 <= j < k implies #[trigger] d[j].button != b by {}
    lemma_lookup_after_misses(d, b, k);
    if k < 12 {
        lemma_lookup_skip(d, b, k);
    } else {
        assert(d.skip(12).len() == 0);
    }
}

/// By default each D-pad button navigates in its own direction, A (South)
/// selects and B (East) goes back.
pub proof fn law_default_dpad_navigates()
    ensures
        lookup(default_bindings(), PadButton::DPadUp) == Some(RemoteAction::Navigate(Direction::Up)),
        lookup(default_bindings(), PadButton::DPadDown) == Some(
            RemoteAction::Navigate(Direction::Down),
        ),
        lookup(default_bindings(), PadButton::DPadLeft) == Some(
            RemoteAction::Navigate(Direction::Left),
        ),
        lookup(default_bindings(), PadButton::DPadRight) == Some(
            RemoteAction::Navigate(Direction::Right),
        ),
        lookup(default_bindings(), PadButton::South) == Some(RemoteAction::Select),
        lookup(default_bindings(), PadButton::East) == Some(RemoteAction::Back),
{
    law_default_map(PadButton::DPadUp);
    law_default_map(PadButton::DPadDown);
    law_default_map(PadButton::DPadLeft);
    law_default_map(PadButton::DPadRight);
    law_default_map(PadButton::South);
    law_default_map(PadButton::East);
}

} // verus!
