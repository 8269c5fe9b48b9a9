//! The state and text of the runtime debug overlay (F3 / L3 + R3): the
//! connected controllers, the held buttons in a fixed order, the live frame,
//! and the capture, GPU and transport context lines. The rendering and the
//! frame-rate gauges live with the app's drawing code.
use vstd::prelude::*;

use crate::event::PadButton;
use crate::router::PressedButtons;
use crate::text::{decimal, push_decimal};

verus! {

/// The fixed display order of the buttons line: every [`PadButton`], so the
/// line does not reshuffle as the (unordered) held set changes.
pub open spec fn display_order() -> Seq<PadButton> {
    seq![
        PadButton::DPadUp,
        PadButton::DPadDown,
        PadButton::DPadLeft,
        PadButton::DPadRight,
        PadButton::North,
        PadButton::South,
        PadButton::West,
        PadButton::East,
        PadButton::LeftBumper,
        PadButton::RightBumper,
        PadButton::LeftTrigger,
        PadButton::RightTrigger,
        PadButton::LeftStick,
        PadButton::RightStick,
        PadButton::Select,
        PadButton::Start,
        PadButton::Guide,
    ]
}

fn display_order_array() -> (r: [PadButton; 17])
    ensures
        r@ == display_order(),
{
    let r = [
        PadButton::DPadUp,
        PadButton::DPadDown,
        PadButton::DPadLeft,
        PadButton::DPadRight,
        PadButton::North,
        PadButton::South,
        PadButton::West,
        PadButton::East,
        PadButton::LeftBumper,
        PadButton::RightBumper,
        PadButton::LeftTrigger,
        PadButton::RightTrigger,
        PadButton::LeftStick,
        PadButton::RightStick,
        PadButton::Select,
        PadButton::Start,
        PadButton::Guide,
    ];
    assert(r@ =~= display_order());
    r
}

/// The short, controller-agnostic name of a button: face buttons by their
/// Xbox letters, everything else a compact abbreviation.
pub open spec fn button_label_spec(button: PadButton) -> Seq<char> {
    match button {
        PadButton::South => "A"@,
        PadButton::East => "B"@,
        PadButton::North => "Y"@,
        PadButton::West => "X"@,
        PadButton::LeftBumper => "LB"@,
        PadButton::RightBumper => "RB"@,
        PadButton::LeftTrigger => "LT"@,
        PadButton::RightTrigger => "RT"@,
        PadButton::Select => "Select"@,
        PadButton::Start => "Start"@,
        PadButton::Guide => "Guide"@,
        PadButton::LeftStick => "L3"@,
        PadButton::RightStick => "R3"@,
        PadButton::DPadUp => "Up"@,
        PadButton::DPadDown => "Down"@,
        PadButton::DPadLeft => "Left"@,
        PadButton::DPadRight => "Right"@,
    }
}

/// A short, controller-agnostic name for the buttons line.
pub fn button_label(button: PadButton) -> (r: &'static str)
    ensures
        r@ == button_label_spec(button),
{
    match button {
        PadButton::South => "A",
        PadButton::East => "B",
        PadButton::North => "Y",
        PadButton::West => "X",
        PadButton::LeftBumper => "LB",
        PadButton::RightBumper => "RB",
        PadButton::LeftTrigger => "LT",
        PadButton::RightTrigger => "RT",
        PadButton::Select => "Select",
        PadButton::Start => "Start",
        PadButton::Guide => "Guide",
        PadButton::LeftStick => "L3",
        PadButton::RightStick => "R3",
        PadButton::DPadUp => "Up",
        PadButton::DPadDown => "Down",
        PadButton::DPadLeft => "Left",
        PadButton::DPadRight => "Right",
    }
}

/// `parts` joined with `sep` between consecutive parts.
pub open spec fn join(parts: Seq<Seq<char>>, sep: Seq<char>) -> Seq<char>
    decreases parts.len(),
{
    if parts.len() == 0 {
        Seq::empty()
    } else if parts.len() == 1 {
        parts[0]
    } else {
        join(parts.drop_last(), sep) + sep + parts.last()
    }
}

/// The held buttons of `held`, in display order.
pub open spec fn held_in_order(held: Set<PadButton>) -> Seq<PadButton> {
    display_order().filter(is_held(held))
}

/// The predicate "held in `held`".
pub open spec fn is_held(held: Set<PadButton>) -> spec_fn(PadButton) -> bool {
    |b: PadButton| held.contains(b)
}

/// The labels of `buttons`.
pub open spec fn labels(buttons: Seq<PadButton>) -> Seq<Seq<char>> {
    buttons.map_values(|b: PadButton| button_label_spec(b))
}

/// The views of `strings`.
pub open spec fn views(strings: Seq<String>) -> Seq<Seq<char>> {
    strings.map_values(|s: String| s@)
}

/// Append `parts` joined with `sep` to `out`.
fn append_joined_labels(out: &mut String, buttons: &Vec<PadButton>, sep: &str)
    ensures
        final(out)@ == old(out)@ + join(labels(buttons@), sep@),
{
    let n = buttons.len();
    let ghost start = out@;
    let mut i: usize = 0;
    assert(labels(buttons@.take(0)) =~= Seq::<Seq<char>>::empty());
    while i < n
        invariant
            n == buttons@.len(),
            i <= n,
            out@ == start + join(labels(buttons@.take(i as int)), sep@),
        decreases n - i,
    {
        let ghost prev = labels(buttons@.take(i as int));
        let ghost next = labels(buttons@.take(i + 1));
        assert(next.drop_last() =~= prev);
        assert(next.last() == button_label_spec(buttons@[i as int]));
        if i > 0 {
            out.append(sep);
        }
        out.append(button_label(buttons[i]));
        assert(out@ =~= start + join(next, sep@));
        i = i + 1;
    }
    assert(buttons@.take(n as int) =~= buttons@);
}

/// Append `parts` joined with `sep` to `out`.
fn append_joined_strings(out: &mut String, parts: &Vec<String>, sep: &str)
    ensures
        final(out)@ == old(out)@ + join(views(parts@), sep@),
{
    let n = parts.len();
    let ghost start = out@;
    let mut i: usize = 0;
    assert(views(parts@.take(0)) =~= Seq::<Seq<char>>::empty());
    while i < n
        invariant
            n == parts@.len(),
            i <= n,
            out@ == start + join(views(parts@.take(i as int)), sep@),
        decreases n - i,
    {
        let ghost prev = views(parts@.take(i as int));
        let ghost next = views(parts@.take(i + 1));
        assert(next.drop_last() =~= prev);
        assert(next.last() == parts@[i as int]@);
        if i > 0 {
            out.append(sep);
        }
        out.append(parts[i].as_str());
        assert(out@ =~= start + join(next, sep@));
        i = i + 1;
    }
    assert(parts@.take(n as int) =~= parts@);
}

/// The diagnostics the debug overlay shows.
pub struct DebugOverlay {
    enabled: bool,
    devices: Vec<String>,
    held: Vec<PadButton>,
    frame_dims: Option<(u32, u32)>,
    frame_format: String,
    device_line: String,
    mode_line: String,
    audio: bool,
    gpu_line: String,
    transport_line: String,
}

/// Copy of `v`, string by string.
fn copy_strings(v: &[String]) -> (r: Vec<String>)
    ensures
        r@ == v@,
{
    let mut out: Vec<String> = Vec::new();
    let n = v.len();
    let mut i: usize = 0;
    while i < n
        invariant
            n == v@.len(),
            i <= n,
            out@ == v@.take(i as int),
        decreases n - i,
    {
        out.push(v[i].clone());
        assert(v@.take(i + 1) =~= v@.take(i as int).push(v@[i as int]));
        i = i + 1;
    }
    assert(v@.take(n as int) =~= v@);
    out
}

/// `s`, or a dash when `s` is empty.
pub open spec fn dash_spec(s: Seq<char>) -> Seq<char> {
    if s.len() == 0 {
        "—"@
    } else {
        s
    }
}

/// `s`, or a dash when it is empty.
pub fn dash(s: &str) -> (r: String)
    ensures
        r@ == dash_spec(s@),
{
    if s.unicode_len() == 0 {
        String::from_str("—")
    } else {
        String::from_str(s)
    }
}

impl DebugOverlay {
    /// Whether the overlay is shown.
    pub closed spec fn enabled_spec(&self) -> bool {
        self.enabled
    }

    /// The connected controller names.
    pub closed spec fn devices_spec(&self) -> Seq<String> {
        self.devices@
    }

    /// The held buttons, in display order.
    pub closed spec fn held_spec(&self) -> Seq<PadButton> {
        self.held@
    }

    /// The live frame's dimensions and format, once one arrived.
    pub closed spec fn frame_spec(&self) -> (Option<(u32, u32)>, Seq<char>) {
        (self.frame_dims, self.frame_format@)
    }

    /// The context lines: device, mode, audio, GPU, transport.
    pub closed spec fn context_spec(&self) -> (Seq<char>, Seq<char>, bool, Seq<char>, Seq<char>) {
        (self.device_line@, self.mode_line@, self.audio, self.gpu_line@, self.transport_line@)
    }

    /// An overlay, initially shown if `enabled`, with nothing recorded yet.
    pub fn new(enabled: bool) -> (r: Self)
        ensures
            r.enabled_spec() == enabled,
            r.devices_spec().len() == 0,
            r.held_spec().len() == 0,
            r.frame_spec() == (None::<(u32, u32)>, "—"@),
            r.context_spec() == (Seq::<char>::empty(), Seq::<char>::empty(), false, Seq::<
                char,
            >::empty(), Seq::<char>::empty()),
    {
        DebugOverlay {
            enabled,
            devices: Vec::new(),
            held: Vec::new(),
            frame_dims: None,
            frame_format: String::from_str("—"),
            device_line: String::new(),
            mode_line: String::new(),
            audio: false,
            gpu_line: String::new(),
            transport_line: String::new(),
        }
    }

    /// Toggle visibility (F3 / L3 + R3).
    pub fn toggle(&mut self)
        ensures
            final(self).enabled_spec() == !old(self).enabled_spec(),
            final(self).devices_spec() == old(self).devices_spec(),
            final(self).held_spec() == old(self).held_spec(),
            final(self).frame_spec() == old(self).frame_spec(),
            final(self).context_spec() == old(self).context_spec(),
    {
        self.enabled = !self.enabled;
    }

    /// Whether the overlay is shown.
    pub fn is_enabled(&self) -> (r: bool)
        ensures
            r == self.enabled_spec(),
    {
        self.enabled
    }

    /// Refresh the connected-controllers line (call on connect/disconnect).
    pub fn set_devices(&mut self, names: &[String])
        ensures
            final(self).devices_spec() == names@,
            final(self).enabled_spec() == old(self).enabled_spec(),
            final(self).held_spec() == old(self).held_spec(),
            final(self).frame_spec() == old(self).frame_spec(),
            final(self).context_spec() == old(self).context_spec(),
    {
        self.devices = copy_strings(names);
    }

    /// Refresh the held buttons from the current set of held buttons.
    pub fn update(&mut self, pressed: &PressedButtons)
        ensures
            final(self).held_spec() == held_in_order(pressed@),
            final(self).enabled_spec() == old(self).enabled_spec(),
            final(self).devices_spec() == old(self).devices_spec(),
            final(self).frame_spec() == old(self).frame_spec(),
            final(self).context_spec() == old(self).context_spec(),
    {
        let order = display_order_array();
        let ghost pred = is_held(pressed@);
        let mut held: Vec<PadButton> = Vec::new();
        let mut i: usize = 0;
        assert(display_order().take(0) =~= Seq::<PadButton>::empty());
        while i < 17
            invariant
                order@ == display_order(),
                pred == is_held(pressed@),
                i <= 17,
                held@ == display_order().take(i as int).filter(pred),
            decreases 17 - i,
        {
            let b = order[i];
            assert(display_order().take(i + 1) == display_order().take(i as int).push(b));
            let ghost prev = held@;
            proof {
                display_order().take(i as int).lemma_filter_push(b, pred);
            }
            if pressed.contains(b) {
                held.push(b);
            }
            assert(display_order().take(i as int).push(b).filter(pred) == if pred(b) {
                prev.push(b)
            } else {
                prev
            });
            i = i + 1;
        }
        assert(display_order().take(17) =~= display_order());
        self.held = held;
    }

    /// Record the dimensions and pixel format of a decoded capture frame.
    pub fn on_capture_frame(&mut self, width: u32, height: u32, format: &str)
        ensures
            final(self).frame_spec() == (Some((width, height)), format@),
            final(self).enabled_spec() == old(self).enabled_spec(),
            final(self).devices_spec() == old(self).devices_spec(),
            final(self).held_spec() == old(self).held_spec(),
            final(self).context_spec() == old(self).context_spec(),
    {
        self.frame_dims = Some((width, height));
        self.frame_format = String::from_str(format);
    }

    /// Set the selected-device and requested-mode context lines.
    pub fn set_capture_context(&mut self, device_line: String, mode_line: String, audio: bool)
        ensures
            final(self).context_spec() == (device_line@, mode_line@, audio, old(
                self,
            ).context_spec().3, old(self).context_spec().4),
            final(self).enabled_spec() == old(self).enabled_spec(),
            final(self).devices_spec() == old(self).devices_spec(),
            final(self).held_spec() == old(self).held_spec(),
            final(self).frame_spec() == old(self).frame_spec(),
    {
        self.device_line = device_line;
        self.mode_line = mode_line;
        self.audio = audio;
    }

    /// Set the GPU adapter summary.
    pub fn set_gpu(&mut self, gpu_line: String)
        ensures
            final(self).context_spec() == (old(self).context_spec().0, old(
                self,
            ).context_spec().1, old(self).context_spec().2, gpu_line@, old(self).context_spec().4),
            final(self).enabled_spec() == old(self).enabled_spec(),
            final(self).devices_spec() == old(self).devices_spec(),
            final(self).held_spec() == old(self).held_spec(),
            final(self).frame_spec() == old(self).frame_spec(),
    {
        self.gpu_line = gpu_line;
    }

    /// Set the transport (input-forwarding) summary line.
    pub fn set_transport(&mut self, transport_line: String)
        ensures
            final(self).context_spec() == (old(self).context_spec().0, old(
                self,
            ).context_spec().1, old(self).context_spec().2, old(self).context_spec().3,
            transport_line@),
            final(self).enabled_spec() == old(self).enabled_spec(),
            final(self).devices_spec() == old(self).devices_spec(),
            final(self).held_spec() == old(self).held_spec(),
            final(self).frame_spec() == old(self).frame_spec(),
    {
        self.transport_line = transport_line;
    }

    /// The "Pads" line: the connected controllers, or a note that Steam is
    /// presenting none.
    pub fn pads_line(&self) -> (r: String)
        ensures
            r@ == if self.devices_spec().len() == 0 {
                "(none — Steam is not presenting a gamepad)"@
            } else {
                join(views(self.devices_spec()), ", "@)
            },
    {
        if self.devices.len() == 0 {
            String::from_str("(none — Steam is not presenting a gamepad)")
        } else {
            let mut s = String::new();
            append_joined_strings(&mut s, &self.devices, ", ");
            s
        }
    }

    /// The "Buttons" line: the held buttons in display order, or a dash.
    pub fn buttons_line(&self) -> (r: String)
        ensures
            r@ == if self.held_spec().len() == 0 {
                "—"@
            } else {
                join(labels(self.held_spec()), "  "@)
            },
    {
        if self.held.len() == 0 {
            String::from_str("—")
        } else {
            let mut s = String::new();
            append_joined_labels(&mut s, &self.held, "  ");
            s
        }
    }

    /// The "Frame" line: `width×height format` of the live frame, or a dash.
    pub fn frame_line(&self) -> (r: String)
        ensures
            r@ == match self.frame_spec().0 {
                Some((w, h)) => decimal(w as nat) + "×"@ + decimal(h as nat) + " "@
                    + self.frame_spec().1,
                None => "—"@,
            },
    {
        match self.frame_dims {
            Some((w, h)) => {
                let mut s = String::new();
                push_decimal(&mut s, w as u64);
                s.append("×");
                push_decimal(&mut s, h as u64);
                s.append(" ");
                s.append(self.frame_format.as_str());
                s
            },
            None => String::from_str("—"),
        }
    }

    /// The device, mode, GPU and transport context lines, each dashed when
    /// empty, and the audio flag.
    pub fn context_lines(&self) -> (r: (String, String, bool, String, String))
        ensures
            r.0@ == dash_spec(self.context_spec().0),
            r.1@ == dash_spec(self.context_spec().1),
            r.2 == self.context_spec().2,
            r.3@ == dash_spec(self.context_spec().3),
            r.4@ == dash_spec(self.context_spec().4),
    {
        (
            dash(self.device_line.as_str()),
            dash(self.mode_line.as_str()),
            self.audio,
            dash(self.gpu_line.as_str()),
            dash(self.transport_line.as_str()),
        )
    }
}

/// The buttons line lists each held button exactly once and nothing else.
pub proof fn law_held_buttons_listed_once(held: Set<PadButton>, b: PadButton)
    ensures
        held_in_order(held).contains(b) <==> held.contains(b),
        held_in_order(held).no_duplicates(),
{
    let pred = is_held(held);
    let d = display_order();
    assert(d.no_duplicates());
    let k: int = match b {
        PadButton::DPadUp => 0,
        PadButton::DPadDown => 1,
        PadButton::DPadLeft => 2,
        PadButton::DPadRight => 3,
        PadButton::North => 4,
        PadButton::South => 5,
        PadButton::West => 6,
        PadButton::East => 7,
        PadButton::LeftBumper => 8,
        PadButton::RightBumper => 9,
        PadButton::LeftTrigger => 10,
        PadButton::RightTrigger => 11,
        PadButton::LeftStick => 12,
        PadButton::RightStick => 13,
        PadButton::Select => 14,
        PadButton::Start => 15,
        PadButton::Guide => 16,
    };
    assert(d[k] == b);
    if held.contains(b) {
        d.lemma_filter_contains(pred, k);
    }
    if held_in_order(held).contains(b) {
        d.lemma_filter_contains_rev(pred, b);
        let j = choose|j: int| 0 <= j < d.filter(pred).len() && d.filter(pred)[j] == b;
        d.lemma_filter_pred(pred, j);
    }
    lemma_filter_keeps_no_duplicates(d, pred);
}

pub(crate) proof fn lemma_filter_keeps_no_duplicates<A>(s: Seq<A>, pred: spec_fn(A) -> bool)
    requires
        s.no_duplicates(),
    ensures
        s.filter(pred).no_duplicates(),
    decreases s.len(),
{
    if s.len() > 0 {
        let t = s.drop_last();
        let x = s.last();
        assert(s =~= t.push(x));
        assert(t.no_duplicates()) by {
            assert forall|i: int, j: int| 0 <= i < t.len() && 0 <= j < t.len() && i != j implies t[i] != t[j] by {
                assert(t[i] == s[i] && t[j] == s[j]);
            }
        }
        lemma_filter_keeps_no_duplicates(t, pred);
        t.lemma_filter_push(x, pred);
        if pred(x) {
            let f = t.filter(pred);
            assert(!t.contains(x)) by {
                if t.contains(x) {
                    let k = choose|k: int| 0 <= k < t.len() && t[k] == x;
                    assert(s[k] == s[s.len() - 1]);
                }
            }
            assert(!f.contains(x)) by {
                if f.contains(x) {
                    t.lemma_filter_contains_rev(pred, x);
                }
            }
            assert forall|i: int, j: int| 0 <= i < f.push(x).len() && 0 <= j < f.push(x).len() && i != j implies f.push(x)[i] != f.push(x)[j] by {
                if i == f.len() {
                    assert(f[j] != x);
                } else if j == f.len() {
                    assert(f[i] != x);
                }
            }
        }
    }
}

} // verus!
