//! The controller-first settings menu: an owned selection model.
//!
//! The menu tracks its own `selected` row and the value chosen on each row;
//! Up/Down move the cursor, Left/Right cycle the selected row's value, A
//! activates and B backs out. The capture-format rows offer only what the
//! active device advertises: the resolutions of the selected codec and the
//! framerates of the selected resolution, each list headed by "Auto".
use vstd::prelude::*;

use crate::config::{transport_choice, transport_choice_spec, transport_for_choice,
    transport_for_choice_spec, TransportKind, TRANSPORT_CHOICE_COUNT};
use crate::device::{codec_offered, codecs, codecs_spec, framerates, framerates_spec,
    res_before, res_offered, resolutions, CaptureCodec, CaptureFormat};
use crate::device::{codec_label_spec, CaptureDevice};
use crate::input::NavDir;
use crate::text::{decimal, push_decimal};

verus! {

/// The rows of the menu, in vertical order.
#[derive(Debug, Clone, Copy, PartialEq, Eq, Structural)]
pub enum Row {
    Device,
    Codec,
    Resolution,
    Framerate,
    Transport,
    Address,
    Audio,
    Connect,
    Close,
}

/// The number of rows.
pub const ROW_COUNT: usize = 9;

/// The row at position `i` (for `i < ROW_COUNT`).
pub open spec fn row_spec(i: int) -> Row {
    if i == 0 {
        Row::Device
    } else if i == 1 {
        Row::Codec
    } else if i == 2 {
        Row::Resolution
    } else if i == 3 {
        Row::Framerate
    } else if i == 4 {
        Row::Transport
    } else if i == 5 {
        Row::Address
    } else if i == 6 {
        Row::Audio
    } else if i == 7 {
        Row::Connect
    } else {
        Row::Close
    }
}

/// The position of `row`.
pub open spec fn row_index_spec(row: Row) -> int {
    match row {
        Row::Device => 0,
        Row::Codec => 1,
        Row::Resolution => 2,
        Row::Framerate => 3,
        Row::Transport => 4,
        Row::Address => 5,
        Row::Audio => 6,
        Row::Connect => 7,
        Row::Close => 8,
    }
}

/// The row at position `i`.
pub fn row_at(i: usize) -> (r: Row)
    requires
        i < ROW_COUNT,
    ensures
        r == row_spec(i as int),
{
    if i == 0 {
        Row::Device
    } else if i == 1 {
        Row::Codec
    } else if i == 2 {
        Row::Resolution
    } else if i == 3 {
        Row::Framerate
    } else if i == 4 {
        Row::Transport
    } else if i == 5 {
        Row::Address
    } else if i == 6 {
        Row::Audio
    } else if i == 7 {
        Row::Connect
    } else {
        Row::Close
    }
}

/// The position of `row`.
pub fn row_index(row: Row) -> (r: usize)
    ensures
        r == row_index_spec(row),
        r < ROW_COUNT,
        row_spec(r as int) == row,
{
    match row {
        Row::Device => 0,
        Row::Codec => 1,
        Row::Resolution => 2,
        Row::Framerate => 3,
        Row::Transport => 4,
        Row::Address => 5,
        Row::Audio => 6,
        Row::Connect => 7,
        Row::Close => 8,
    }
}

/// A side effect the app should perform in response to menu input.
#[derive(Debug, Clone, Copy, PartialEq, Eq, Structural)]
pub enum MenuAction {
    /// Nothing to do.
    Nothing,
    /// Cycle to a different capture device (index into the device list).
    SelectDevice(usize),
    /// Change the capture format. Each field is `None` for "Auto".
    SetCapture {
        codec: Option<CaptureCodec>,
        width: Option<u32>,
        height: Option<u32>,
        framerate: Option<u32>,
    },
    /// Toggle audio passthrough.
    SetAudio(bool),
    /// Persist the target + (re)connect the transport.
    Connect,
    /// Close the menu.
    Close,
}

/// `idx + delta` wrapped into `0..len` (`0` when `len` is `0`).
pub open spec fn wrap_spec(idx: int, delta: int, len: int) -> int {
    if len <= 0 {
        0
    } else {
        (idx + delta) % len
    }
}

/// Step `idx` by `delta` within `0..len`, wrapping around at both ends.
pub fn wrap(idx: usize, delta: i32, len: usize) -> (r: usize)
    ensures
        r == wrap_spec(idx as int, delta as int, len as int),
        len > 0 ==> r < len,
{
    if len == 0 {
        return 0;
    }
    let n: u128 = len as u128;
    let i: u128 = (idx as u128) % n;
    let a: u128 = if delta >= 0 {
        delta as u128
    } else {
        (-(delta as i64)) as u128
    };
    let m: u128 = a % n;
    let d: u128 = if delta >= 0 {
        m
    } else if m == 0 {
        0
    } else {
        n - m
    };
    let s: u128 = (i + d) % n;
    proof {
        let ni = n as int;
        let di = delta as int;
        vstd::arithmetic::div_mod::lemma_mod_pos_bound(a as int, ni);
        assert(d as int == di % ni) by {
            vstd::arithmetic::div_mod::lemma_fundamental_div_mod(a as int, ni);
            let q = (a as int) / ni;
            if delta < 0 {
                assert(di == -(a as int));
                if m == 0 {
                    assert(di == ni * (-q) + 0) by (nonlinear_arith)
                        requires
                            di == -(a as int),
                            a as int == ni * q + m as int,
                            m == 0,
                    ;
                    vstd::arithmetic::div_mod::lemma_mod_multiples_vanish(-q, 0, ni);
                } else {
                    assert(di == ni * (-q - 1) + (ni - m as int)) by (nonlinear_arith)
                        requires
                            di == -(a as int),
                            a as int == ni * q + m as int,
                    ;
                    vstd::arithmetic::div_mod::lemma_mod_multiples_vanish(
                        -q - 1,
                        ni - m as int,
                        ni,
                    );
                    vstd::arithmetic::div_mod::lemma_small_mod((ni - m as int) as nat, ni as nat);
                }
            }
        }
        vstd::arithmetic::div_mod::lemma_add_mod_noop(idx as int, di, ni);
        vstd::arithmetic::div_mod::lemma_mod_pos_bound(idx as int, ni);
        vstd::arithmetic::div_mod::lemma_mod_pos_bound((i + d) as int, ni);
    }
    s as usize
}

/// Wrap a selector value in the `‹ value ›` cycling affordance.
pub fn cyc(value: &str) -> (r: String)
    ensures
        r@ == cyc_spec(value@),
{
    let mut s = String::from_str("‹  ");
    s.append(value);
    s.append("  ›");
    s
}

/// The title of a row.
pub open spec fn row_title_spec(row: Row) -> Seq<char> {
    match row {
        Row::Device => "Capture device"@,
        Row::Codec => "Format"@,
        Row::Resolution => "Resolution"@,
        Row::Framerate => "Framerate"@,
        Row::Transport => "Forward input to"@,
        Row::Address => "Target address"@,
        Row::Audio => "Audio passthrough"@,
        Row::Connect => "Connect"@,
        Row::Close => "Close"@,
    }
}

/// The title of a row.
pub fn row_title(row: Row) -> (r: &'static str)
    ensures
        r@ == row_title_spec(row),
{
    match row {
        Row::Device => "Capture device",
        Row::Codec => "Format",
        Row::Resolution => "Resolution",
        Row::Framerate => "Framerate",
        Row::Transport => "Forward input to",
        Row::Address => "Target address",
        Row::Audio => "Audio passthrough",
        Row::Connect => "Connect",
        Row::Close => "Close",
    }
}

/// `value` in the `‹ value ›` cycling affordance.
pub open spec fn cyc_spec(value: Seq<char>) -> Seq<char> {
    "‹  "@ + value + "  ›"@
}

/// A codec choice as shown: its label, or "Auto".
pub open spec fn codec_text(c: Option<CaptureCodec>) -> Seq<char> {
    match c {
        Some(c) => codec_label_spec(c),
        None => "Auto"@,
    }
}

/// A resolution choice as shown: `width×height`, or "Auto".
pub open spec fn res_text(p: Option<(u32, u32)>) -> Seq<char> {
    match p {
        Some((w, h)) => decimal(w as nat) + "×"@ + decimal(h as nat),
        None => "Auto"@,
    }
}

/// A framerate choice as shown: `N fps`, or "Auto".
pub open spec fn fps_text(f: Option<u32>) -> Seq<char> {
    match f {
        Some(f) => decimal(f as nat) + " fps"@,
        None => "Auto"@,
    }
}

/// The codec options for `formats`: Auto, then each offered codec in display
/// order.
pub open spec fn codec_options(formats: Seq<CaptureFormat>) -> Seq<Option<CaptureCodec>> {
    seq![None].add(codecs_spec(formats).map_values(|c: CaptureCodec| Some(c)))
}

/// Resolution options are well formed for `formats` and the selected `codec`:
/// Auto first, then the offered resolutions of the codec (none without a
/// codec), each once, largest first.
pub open spec fn res_options_ok(
    opts: Seq<Option<(u32, u32)>>,
    formats: Seq<CaptureFormat>,
    codec: Option<CaptureCodec>,
) -> bool {
    &&& opts.len() >= 1
    &&& opts[0] is None
    &&& forall|k: int| 1 <= k < opts.len() ==> #[trigger] opts[k] is Some
    &&& forall|i: int, j: int|
        1 <= i < j < opts.len() ==> res_before(#[trigger] opts[i]->0, #[trigger] opts[j]->0)
    &&& forall|k: int|
        1 <= k < opts.len() ==> codec is Some && res_offered(formats, codec->0, #[trigger] opts[k]->0)
    &&& forall|p: (u32, u32)|
        codec is Some && #[trigger] res_offered(formats, codec->0, p) ==> exists|k: int|
            1 <= k < opts.len() && #[trigger] opts[k] == Some(p)
}

/// The framerate options for `formats`, `codec` and `res`: Auto, then the
/// framerates of that mode (none unless both a codec and a resolution are
/// chosen).
pub open spec fn fps_options(
    formats: Seq<CaptureFormat>,
    codec: Option<CaptureCodec>,
    res: Option<(u32, u32)>,
) -> Seq<Option<u32>> {
    seq![None].add(
        if codec is Some && res is Some {
            framerates_spec(formats, codec->0, res->0).map_values(|f: u32| Some(f))
        } else {
            Seq::empty()
        },
    )
}

/// The codec kept from `prev` for `formats`: the same codec if offered, else
/// Auto.
pub open spec fn keep_codec(formats: Seq<CaptureFormat>, prev: Option<CaptureCodec>) -> Option<
    CaptureCodec,
> {
    match prev {
        Some(c) => if codec_offered(formats, c) {
            Some(c)
        } else {
            None
        },
        None => None,
    }
}

/// The resolution kept from `prev` under `codec`: the same resolution if the
/// codec offers it, else Auto.
pub open spec fn keep_res(
    formats: Seq<CaptureFormat>,
    codec: Option<CaptureCodec>,
    prev: Option<(u32, u32)>,
) -> Option<(u32, u32)> {
    match (codec, prev) {
        (Some(c), Some(p)) => if res_offered(formats, c, p) {
            Some(p)
        } else {
            None
        },
        _ => None,
    }
}

/// The framerate kept from `prev` under `codec` and `res`: the same framerate
/// if that mode offers it, else Auto.
pub open spec fn keep_fps(
    formats: Seq<CaptureFormat>,
    codec: Option<CaptureCodec>,
    res: Option<(u32, u32)>,
    prev: Option<u32>,
) -> Option<u32> {
    match (codec, res, prev) {
        (Some(c), Some(r), Some(f)) => if framerates_spec(formats, c, r).contains(f) {
            Some(f)
        } else {
            None
        },
        _ => None,
    }
}

/// The mutable state of the settings menu.
pub struct Menu {
    pub open: bool,
    selected: usize,
    pub editing_address: bool,
    device_idx: usize,
    transport_idx: usize,
    pub address: String,
    audio: bool,
    /// Set for one frame after entering edit mode, so the drawing code can
    /// grab keyboard focus for the text field exactly once.
    pub focus_address: bool,
    // Capture-format selection, derived from the active device's formats.
    // Each option list starts with `None` (Auto); the resolution and framerate
    // lists depend on the selected codec.
    formats: Vec<CaptureFormat>,
    codec_opts: Vec<Option<CaptureCodec>>,
    res_opts: Vec<Option<(u32, u32)>>,
    fps_opts: Vec<Option<u32>>,
    codec_idx: usize,
    res_idx: usize,
    fps_idx: usize,
}

impl Menu {
    /// The menu is consistent: the cursor is on a row, every option list
    /// matches the device formats and the choices above it, and every chosen
    /// index is within its list.
    pub closed spec fn wf(&self) -> bool {
        &&& self.selected < ROW_COUNT
        &&& self.codec_opts@ == codec_options(self.formats@)
        &&& self.codec_idx < self.codec_opts@.len()
        &&& res_options_ok(self.res_opts@, self.formats@, self.codec_opts@[self.codec_idx as int])
        &&& self.res_idx < self.res_opts@.len()
        &&& self.fps_opts@ == fps_options(
            self.formats@,
            self.codec_opts@[self.codec_idx as int],
            self.res_opts@[self.res_idx as int],
        )
        &&& self.fps_idx < self.fps_opts@.len()
    }

    /// Whether the menu is shown.
    pub closed spec fn is_open_spec(&self) -> bool {
        self.open
    }

    /// Whether the target address is being edited.
    pub closed spec fn editing_spec(&self) -> bool {
        self.editing_address
    }

    /// Whether the address field should grab keyboard focus.
    pub closed spec fn focus_spec(&self) -> bool {
        self.focus_address
    }

    /// The target address text.
    pub closed spec fn address_spec(&self) -> String {
        self.address
    }

    /// The formats of the active device.
    pub closed spec fn formats_spec(&self) -> Seq<CaptureFormat> {
        self.formats@
    }

    /// The selected codec (`None` = Auto).
    pub closed spec fn codec_spec(&self) -> Option<CaptureCodec> {
        self.codec_opts@[self.codec_idx as int]
    }

    /// The selected resolution (`None` = Auto).
    pub closed spec fn res_spec(&self) -> Option<(u32, u32)> {
        self.res_opts@[self.res_idx as int]
    }

    /// The selected framerate (`None` = Auto).
    pub closed spec fn fps_spec(&self) -> Option<u32> {
        self.fps_opts@[self.fps_idx as int]
    }

    /// The resolution options (Auto first).
    pub closed spec fn res_options_spec(&self) -> Seq<Option<(u32, u32)>> {
        self.res_opts@
    }

    /// The framerate options (Auto first).
    pub closed spec fn fps_options_spec(&self) -> Seq<Option<u32>> {
        self.fps_opts@
    }

    /// The cursor row position.
    pub closed spec fn selected_spec(&self) -> int {
        self.selected as int
    }

    /// The selected capture device index.
    pub closed spec fn device_spec(&self) -> int {
        self.device_idx as int
    }

    /// The selected transport option index.
    pub closed spec fn transport_spec(&self) -> int {
        self.transport_idx as int
    }

    /// Whether audio passthrough is on.
    pub closed spec fn audio_spec(&self) -> bool {
        self.audio
    }

    /// A closed menu with the cursor on the first row, the given device,
    /// transport option, target address and audio setting, and no device
    /// formats (every capture choice Auto).
    pub fn new(device_idx: usize, transport_idx: usize, address: String, audio: bool) -> (r: Self)
        ensures
            r.wf(),
            !r.is_open_spec(),
            r.selected_spec() == 0,
            !r.editing_spec(),
            !r.focus_spec(),
            r.device_spec() == device_idx,
            r.transport_spec() == transport_idx,
            r.address_spec() == address,
            r.audio_spec() == audio,
            r.formats_spec().len() == 0,
            r.codec_spec() is None,
            r.res_spec() is None,
            r.fps_spec() is None,
    {
        let m = Menu {
            open: false,
            selected: 0,
            editing_address: false,
            device_idx,
            transport_idx,
            address,
            audio,
            focus_address: false,
            formats: Vec::new(),
            codec_opts: vec![None],
            res_opts: vec![None],
            fps_opts: vec![None],
            codec_idx: 0,
            res_idx: 0,
            fps_idx: 0,
        };
        proof {
            assert(codecs_spec(m.formats@).len() == 0) by {
                codecs_spec(m.formats@).lemma_filter_len(
                    crate::device::offered_in(m.formats@),
                );
                assert forall|i: int| 0 <= i < 7 implies !codec_offered(
                    m.formats@,
                    #[trigger] crate::device::codec_order()[i],
                ) by {}
                lemma_filter_none(crate::device::codec_order(), crate::device::offered_in(m.formats@));
            }
            assert(m.codec_opts@ =~= codec_options(m.formats@));
            assert(m.fps_opts@ =~= fps_options(m.formats@, None, None));
        }
        m
    }

    /// The same menu, shown when `open` (the app passes whether its developer
    /// hook, the `COUCHCAST_MENU_OPEN` environment variable, is set, so the
    /// menu can be exercised without a controller).
    pub fn with_open(self, open: bool) -> (r: Self)
        requires
            self.wf(),
        ensures
            r.wf(),
            r.is_open_spec() == open,
            unchanged_values(self, r),
            r.res_options_spec() == self.res_options_spec(),
            r.fps_options_spec() == self.fps_options_spec(),
            codec_index_of(r) == codec_index_of(self),
            res_index_of(r) == res_index_of(self),
            fps_index_of(r) == fps_index_of(self),
            r.editing_spec() == self.editing_spec(),
            r.address_spec() == self.address_spec(),
            r.focus_spec() == self.focus_spec(),
            r.selected_spec() == self.selected_spec(),
    {
        Menu { open, ..self }
    }

    /// The selected codec (`None` = Auto).
    pub fn current_codec(&self) -> (r: Option<CaptureCodec>)
        requires
            self.wf(),
        ensures
            r == self.codec_spec(),
    {
        self.codec_opts[self.codec_idx]
    }

    /// The selected resolution (`None` = Auto).
    pub fn current_res(&self) -> (r: Option<(u32, u32)>)
        requires
            self.wf(),
        ensures
            r == self.res_spec(),
    {
        self.res_opts[self.res_idx]
    }

    /// The selected framerate (`None` = Auto).
    pub fn current_fps(&self) -> (r: Option<u32>)
        requires
            self.wf(),
        ensures
            r == self.fps_spec(),
    {
        self.fps_opts[self.fps_idx]
    }

    /// The resolution options (Auto first).
    pub fn res_opts(&self) -> (r: &Vec<Option<(u32, u32)>>)
        ensures
            r@ == self.res_options_spec(),
    {
        &self.res_opts
    }

    /// The framerate options (Auto first).
    pub fn fps_opts(&self) -> (r: &Vec<Option<u32>>)
        ensures
            r@ == self.fps_options_spec(),
    {
        &self.fps_opts
    }

    /// The cursor row position.
    pub fn selected(&self) -> (r: usize)
        ensures
            r == self.selected_spec(),
    {
        self.selected
    }

    /// The row under the cursor.
    pub fn selected_row(&self) -> (r: Row)
        requires
            self.wf(),
        ensures
            r == row_spec(self.selected_spec()),
    {
        row_at(self.selected)
    }

    /// Put the cursor on `row`.
    pub fn select_row(&mut self, row: Row)
        requires
            old(self).wf(),
        ensures
            final(self).wf(),
            final(self).selected_spec() == row_index_spec(row),
            final(self).codec_spec() == old(self).codec_spec(),
            final(self).res_spec() == old(self).res_spec(),
            final(self).fps_spec() == old(self).fps_spec(),
            final(self).device_spec() == old(self).device_spec(),
            final(self).transport_spec() == old(self).transport_spec(),
            final(self).audio_spec() == old(self).audio_spec(),
            final(self).formats_spec() == old(self).formats_spec(),
            final(self).is_open_spec() == old(self).is_open_spec(),
            final(self).editing_spec() == old(self).editing_spec(),
    {
        self.selected = row_index(row);
    }

    /// The selected capture device index.
    pub fn device_idx(&self) -> (r: usize)
        ensures
            r == self.device_spec(),
    {
        self.device_idx
    }

    /// The selected transport option index.
    pub fn transport_idx(&self) -> (r: usize)
        ensures
            r == self.transport_spec(),
    {
        self.transport_idx
    }

    /// Whether audio passthrough is on.
    pub fn audio(&self) -> (r: bool)
        ensures
            r == self.audio_spec(),
    {
        self.audio
    }

    /// Rebuild the resolution options for the selected codec; a resolution
    /// index past the new list falls back to Auto.
    fn recompute_res_opts(&mut self)
        requires
            old(self).selected < ROW_COUNT,
            old(self).codec_opts@ == codec_options(old(self).formats@),
            old(self).codec_idx < old(self).codec_opts@.len(),
        ensures
            res_options_ok(final(self).res_opts@, final(self).formats@, final(self).codec_spec()),
            final(self).res_idx == if old(self).res_idx < final(self).res_opts@.len() {
                old(self).res_idx
            } else {
                0
            },
            final(self).res_opts@.len() >= 1,
            final(self).selected == old(self).selected,
            final(self).codec_opts == old(self).codec_opts,
            final(self).codec_idx == old(self).codec_idx,
            final(self).formats == old(self).formats,
            final(self).fps_opts == old(self).fps_opts,
            final(self).fps_idx == old(self).fps_idx,
            final(self).device_idx == old(self).device_idx,
            final(self).transport_idx == old(self).transport_idx,
            final(self).audio == old(self).audio,
            final(self).is_open_spec() == old(self).is_open_spec(),
            final(self).editing_spec() == old(self).editing_spec(),
            final(self).focus_spec() == old(self).focus_spec(),
            final(self).address_spec() == old(self).address_spec(),
    {
        let mut opts: Vec<Option<(u32, u32)>> = vec![None];
        let codec = self.current_codec_raw();
        match codec {
            Some(c) => {
                let res = resolutions(self.formats.as_slice(), c);
                let n = res.len();
                let mut i: usize = 0;
                while i < n
                    invariant
                        n == res@.len(),
                        i <= n,
                        opts@.len() == i + 1,
                        opts@[0] is None,
                        forall|k: int| 1 <= k < opts@.len() ==> #[trigger] opts@[k] == Some(res@[k - 1]),
                    decreases n - i,
                {
                    opts.push(Some(res[i]));
                    i = i + 1;
                }
                proof {
                    let fs = self.formats@;
                    assert forall|k: int| 1 <= k < opts@.len() implies #[trigger] opts@[k] is Some by {}
                    assert forall|a: int, b: int| 1 <= a < b < opts@.len() implies res_before(
                        #[trigger] opts@[a]->0,
                        #[trigger] opts@[b]->0,
                    ) by {
                        assert(opts@[a] == Some(res@[a - 1]));
                        assert(opts@[b] == Some(res@[b - 1]));
                    }
                    assert forall|k: int| 1 <= k < opts@.len() implies codec is Some && res_offered(
                        fs,
                        codec->0,
                        #[trigger] opts@[k]->0,
                    ) by {
                        assert(opts@[k] == Some(res@[k - 1]));
                        assert(res@.contains(res@[k - 1]));
                    }
                    assert forall|p: (u32, u32)|
                        codec is Some && #[trigger] res_offered(fs, codec->0, p) implies exists|k: int|
                            1 <= k < opts@.len() && #[trigger] opts@[k] == Some(p) by {
                        assert(res@.contains(p));
                        let j = choose|j: int| 0 <= j < res@.len() && res@[j] == p;
                        assert(opts@[j + 1] == Some(p));
                    }
                }
            },
            None => {},
        }
        self.res_opts = opts;
        if self.res_idx >= self.res_opts.len() {
            self.res_idx = 0;
        }
    }

    /// The selected codec, read without the full consistency requirement.
    fn current_codec_raw(&self) -> (r: Option<CaptureCodec>)
        requires
            self.codec_idx < self.codec_opts@.len(),
        ensures
            r == self.codec_spec(),
    {
        self.codec_opts[self.codec_idx]
    }

    /// Rebuild the framerate options for the selected codec and resolution; a
    /// framerate index past the new list falls back to Auto.
    fn recompute_fps_opts(&mut self)
        requires
            old(self).codec_idx < old(self).codec_opts@.len(),
            old(self).res_idx < old(self).res_opts@.len(),
        ensures
            final(self).fps_opts@ == fps_options(
                final(self).formats@,
                final(self).codec_spec(),
                final(self).res_spec(),
            ),
            final(self).fps_idx == if old(self).fps_idx < final(self).fps_opts@.len() {
                old(self).fps_idx
            } else {
                0
            },
            final(self).selected == old(self).selected,
            final(self).codec_opts == old(self).codec_opts,
            final(self).codec_idx == old(self).codec_idx,
            final(self).res_opts == old(self).res_opts,
            final(self).res_idx == old(self).res_idx,
            final(self).formats == old(self).formats,
            final(self).device_idx == old(self).device_idx,
            final(self).transport_idx == old(self).transport_idx,
            final(self).audio == old(self).audio,
            final(self).is_open_spec() == old(self).is_open_spec(),
            final(self).editing_spec() == old(self).editing_spec(),
            final(self).focus_spec() == old(self).focus_spec(),
            final(self).address_spec() == old(self).address_spec(),
    {
        let mut opts: Vec<Option<u32>> = vec![None];
        let codec = self.codec_opts[self.codec_idx];
        let res = self.res_opts[self.res_idx];
        if let (Some(c), Some(r)) = (codec, res) {
            let rates = framerates(self.formats.as_slice(), c, r);
            let n = rates.len();
            let mut i: usize = 0;
            while i < n
                invariant
                    n == rates@.len(),
                    i <= n,
                    opts@ == seq![None].add(rates@.take(i as int).map_values(|f: u32| Some(f))),
                decreases n - i,
            {
                opts.push(Some(rates[i]));
                assert(seq![None].add(rates@.take(i + 1).map_values(|f: u32| Some(f))) =~= seq![
                    None,
                ].add(rates@.take(i as int).map_values(|f: u32| Some(f))).push(Some(rates@[i as int])));
                i = i + 1;
            }
            assert(rates@.take(n as int) =~= rates@);
        } else {
            assert(opts@ =~= fps_options(self.formats@, codec, res));
        }
        self.fps_opts = opts;
        if self.fps_idx >= self.fps_opts.len() {
            self.fps_idx = 0;
        }
    }

    /// The position of `Some(c)` among the codec options.
    fn find_codec(&self, c: CaptureCodec) -> (r: Option<usize>)
        requires
            self.codec_opts@ == codec_options(self.formats@),
        ensures
            match r {
                Some(i) => i < self.codec_opts@.len() && self.codec_opts@[i as int] == Some(c),
                None => !codec_offered(self.formats@, c),
            },
    {
        let n = self.codec_opts.len();
        let mut i: usize = 0;
        while i < n
            invariant
                n == self.codec_opts@.len(),
                self.codec_opts@ == codec_options(self.formats@),
                i <= n,
                forall|k: int| 0 <= k < i ==> #[trigger] self.codec_opts@[k] != Some(c),
            decreases n - i,
        {
            if self.codec_opts[i] == Some(c) {
                return Some(i);
            }
            i = i + 1;
        }
        proof {
            if codec_offered(self.formats@, c) {
                let cs = codecs_spec(self.formats@);
                let pred = crate::device::offered_in(self.formats@);
                let k = lemma_codec_in_order(c);
                assert(pred(c));
                crate::device::codec_order().lemma_filter_contains(pred, k);
                assert(cs.contains(c));
                let j = choose|j: int| 0 <= j < cs.len() && cs[j] == c;
                assert(self.codec_opts@[j + 1] == Some(c));
            }
        }
        None
    }

    /// The position of `Some(p)` among the resolution options.
    fn find_res(&self, p: (u32, u32)) -> (r: Option<usize>)
        requires
            self.res_opts@.len() >= 1,
        ensures
            match r {
                Some(i) => i < self.res_opts@.len() && self.res_opts@[i as int] == Some(p),
                None => forall|k: int| 0 <= k < self.res_opts@.len() ==> self.res_opts@[k] != Some(p),
            },
    {
        let n = self.res_opts.len();
        let mut i: usize = 0;
        while i < n
            invariant
                n == self.res_opts@.len(),
                i <= n,
                forall|k: int| 0 <= k < i ==> #[trigger] self.res_opts@[k] != Some(p),
            decreases n - i,
        {
            match self.res_opts[i] {
                Some(q) => {
                    if q.0 == p.0 && q.1 == p.1 {
                        return Some(i);
                    }
                },
                None => {},
            }
            i = i + 1;
        }
        None
    }

    /// The position of `Some(f)` among the framerate options.
    fn find_fps(&self, f: u32) -> (r: Option<usize>)
        ensures
            match r {
                Some(i) => i < self.fps_opts@.len() && self.fps_opts@[i as int] == Some(f),
                None => forall|k: int| 0 <= k < self.fps_opts@.len() ==> self.fps_opts@[k] != Some(f),
            },
    {
        let n = self.fps_opts.len();
        let mut i: usize = 0;
        while i < n
            invariant
                n == self.fps_opts@.len(),
                i <= n,
                forall|k: int| 0 <= k < i ==> #[trigger] self.fps_opts@[k] != Some(f),
            decreases n - i,
        {
            if self.fps_opts[i] == Some(f) {
                return Some(i);
            }
            i = i + 1;
        }
        None
    }

    /// Point the resolution choice at `prev` if the current options offer it,
    /// else at Auto.
    fn select_res(&mut self, prev: Option<(u32, u32)>)
        requires
            res_options_ok(old(self).res_opts@, old(self).formats@, old(self).codec_spec()),
            old(self).codec_idx < old(self).codec_opts@.len(),
        ensures
            final(self).res_idx < final(self).res_opts@.len(),
            final(self).res_spec() == keep_res(final(self).formats@, final(self).codec_spec(), prev),
            final(self).res_opts == old(self).res_opts,
            final(self).selected == old(self).selected,
            final(self).codec_opts == old(self).codec_opts,
            final(self).codec_idx == old(self).codec_idx,
            final(self).formats == old(self).formats,
            final(self).fps_opts == old(self).fps_opts,
            final(self).fps_idx == old(self).fps_idx,
            final(self).device_idx == old(self).device_idx,
            final(self).transport_idx == old(self).transport_idx,
            final(self).audio == old(self).audio,
            final(self).is_open_spec() == old(self).is_open_spec(),
            final(self).editing_spec() == old(self).editing_spec(),
            final(self).focus_spec() == old(self).focus_spec(),
            final(self).address_spec() == old(self).address_spec(),
    {
        let ghost fs = self.formats@;
        let ghost codec = self.codec_spec();
        match prev {
            Some(p) => match self.find_res(p) {
                Some(i) => {
                    proof {
                        if i == 0 {
                            assert(self.res_opts@[0] is None);
                        }
                        assert(self.res_opts@[i as int]->0 == p);
                    }
                    self.res_idx = i;
                },
                None => {
                    proof {
                        if codec is Some && res_offered(fs, codec->0, p) {
                            let k = choose|k: int| 1 <= k < self.res_opts@.len() && #[trigger] self.res_opts@[k] == Some(p);
                            assert(self.res_opts@[k] == Some(p));
                        }
                    }
                    self.res_idx = 0;
                },
            },
            None => {
                self.res_idx = 0;
            },
        }
    }

    /// Point the framerate choice at `prev` if the current options offer it,
    /// else at Auto.
    fn select_fps(&mut self, prev: Option<u32>)
        requires
            old(self).codec_idx < old(self).codec_opts@.len(),
            old(self).res_idx < old(self).res_opts@.len(),
            old(self).fps_opts@ == fps_options(old(self).formats@, old(self).codec_spec(), old(self).res_spec()),
        ensures
            final(self).fps_idx < final(self).fps_opts@.len(),
            final(self).fps_spec() == keep_fps(
                final(self).formats@,
                final(self).codec_spec(),
                final(self).res_spec(),
                prev,
            ),
            final(self).fps_opts == old(self).fps_opts,
            final(self).selected == old(self).selected,
            final(self).codec_opts == old(self).codec_opts,
            final(self).codec_idx == old(self).codec_idx,
            final(self).res_opts == old(self).res_opts,
            final(self).res_idx == old(self).res_idx,
            final(self).formats == old(self).formats,
            final(self).device_idx == old(self).device_idx,
            final(self).transport_idx == old(self).transport_idx,
            final(self).audio == old(self).audio,
            final(self).is_open_spec() == old(self).is_open_spec(),
            final(self).editing_spec() == old(self).editing_spec(),
            final(self).focus_spec() == old(self).focus_spec(),
            final(self).address_spec() == old(self).address_spec(),
    {
        let ghost fs = self.formats@;
        let ghost codec = self.codec_spec();
        let ghost res = self.res_spec();
        match prev {
            Some(f) => match self.find_fps(f) {
                Some(i) => {
                    proof {
                        if codec is Some && res is Some {
                            let rates = framerates_spec(fs, codec->0, res->0);
                            if i == 0 {
                                assert(self.fps_opts@[0] is None);
                            }
                            assert(rates[i - 1] == f);
                            assert(rates.contains(f));
                        } else {
                            assert(self.fps_opts@.len() == 1);
                        }
                    }
                    self.fps_idx = i;
                },
                None => {
                    proof {
                        if codec is Some && res is Some {
                            let rates = framerates_spec(fs, codec->0, res->0);
                            if rates.contains(f) {
                                let j = choose|j: int| 0 <= j < rates.len() && rates[j] == f;
                                assert(self.fps_opts@[j + 1] == Some(f));
                            }
                        }
                    }
                    self.fps_idx = 0;
                },
            },
            None => {
                self.fps_idx = 0;
            },
        }
    }

    /// Rebuild the capture-format options for the active device's `formats`,
    /// seeding the selection from the persisted preferences: each stored value
    /// is kept when this device offers it (under the choices above it), else
    /// that choice falls back to Auto.
    pub fn set_formats(
        &mut self,
        formats: Vec<CaptureFormat>,
        codec: Option<CaptureCodec>,
        width: Option<u32>,
        height: Option<u32>,
        framerate: Option<u32>,
    )
        requires
            old(self).wf(),
        ensures
            final(self).wf(),
            final(self).formats_spec() == formats@,
            final(self).codec_spec() == keep_codec(formats@, codec),
            final(self).res_spec() == keep_res(
                formats@,
                final(self).codec_spec(),
                if width is Some && height is Some {
                    Some((width->0, height->0))
                } else {
                    None
                },
            ),
            final(self).fps_spec() == keep_fps(
                formats@,
                final(self).codec_spec(),
                final(self).res_spec(),
                framerate,
            ),
            final(self).selected_spec() == old(self).selected_spec(),
            final(self).device_spec() == old(self).device_spec(),
            final(self).transport_spec() == old(self).transport_spec(),
            final(self).audio_spec() == old(self).audio_spec(),
            final(self).is_open_spec() == old(self).is_open_spec(),
            final(self).editing_spec() == old(self).editing_spec(),
            final(self).address_spec() == old(self).address_spec(),
    {
        self.formats = formats;
        let cs = codecs(self.formats.as_slice());
        let mut opts: Vec<Option<CaptureCodec>> = vec![None];
        let n = cs.len();
        let mut i: usize = 0;
        while i < n
            invariant
                n == cs@.len(),
                i <= n,
                opts@ == seq![None].add(cs@.take(i as int).map_values(|c: CaptureCodec| Some(c))),
            decreases n - i,
        {
            opts.push(Some(cs[i]));
            assert(seq![None].add(cs@.take(i + 1).map_values(|c: CaptureCodec| Some(c))) =~= seq![
                None,
            ].add(cs@.take(i as int).map_values(|c: CaptureCodec| Some(c))).push(Some(cs@[i as int])));
            i = i + 1;
        }
        assert(cs@.take(n as int) =~= cs@);
        self.codec_opts = opts;
        self.codec_idx = match codec {
            Some(c) => match self.find_codec(c) {
                Some(k) => k,
                None => 0,
            },
            None => 0,
        };
        proof {
            if let Some(c) = codec {
                if codec_offered(self.formats@, c) {
                    assert(self.codec_spec() == Some(c));
                }
            }
        }
        self.recompute_res_opts();
        let prev_res = match (width, height) {
            (Some(w), Some(h)) => Some((w, h)),
            _ => None,
        };
        self.select_res(prev_res);
        self.recompute_fps_opts();
        self.select_fps(framerate);
    }

    /// After a codec change: rebuild the resolution list, keeping the same
    /// resolution if the new codec still offers it (else Auto), then the
    /// framerates.
    fn on_codec_changed(&mut self, prev_res: Option<(u32, u32)>, prev_fps: Option<u32>)
        requires
            old(self).selected < ROW_COUNT,
            old(self).codec_opts@ == codec_options(old(self).formats@),
            old(self).codec_idx < old(self).codec_opts@.len(),
        ensures
            final(self).wf(),
            final(self).res_spec() == keep_res(final(self).formats@, final(self).codec_spec(), prev_res),
            final(self).fps_spec() == keep_fps(
                final(self).formats@,
                final(self).codec_spec(),
                final(self).res_spec(),
                prev_fps,
            ),
            final(self).selected == old(self).selected,
            final(self).codec_opts == old(self).codec_opts,
            final(self).codec_idx == old(self).codec_idx,
            final(self).formats == old(self).formats,
            final(self).device_idx == old(self).device_idx,
            final(self).transport_idx == old(self).transport_idx,
            final(self).audio == old(self).audio,
            final(self).is_open_spec() == old(self).is_open_spec(),
            final(self).editing_spec() == old(self).editing_spec(),
            final(self).focus_spec() == old(self).focus_spec(),
            final(self).address_spec() == old(self).address_spec(),
    {
        self.recompute_res_opts();
        self.select_res(prev_res);
        self.recompute_fps_opts();
        self.select_fps(prev_fps);
    }

    /// The current capture selection as `(codec, width, height, framerate)`,
    /// each `None` for Auto.
    pub fn capture_selection(&self) -> (r: (Option<CaptureCodec>, Option<u32>, Option<u32>, Option<u32>))
        requires
            self.wf(),
        ensures
            r.0 == self.codec_spec(),
            r.1 == match self.res_spec() {
                Some(p) => Some(p.0),
                None => None,
            },
            r.2 == match self.res_spec() {
                Some(p) => Some(p.1),
                None => None,
            },
            r.3 == self.fps_spec(),
    {
        let (width, height) = match self.current_res() {
            Some((w, h)) => (Some(w), Some(h)),
            None => (None, None),
        };
        (self.current_codec(), width, height, self.current_fps())
    }

    /// The action carrying the current capture selection.
    fn capture_action(&self) -> (r: MenuAction)
        requires
            self.wf(),
        ensures
            r == capture_action_spec(self.codec_spec(), self.res_spec(), self.fps_spec()),
    {
        let (codec, width, height, framerate) = self.capture_selection();
        MenuAction::SetCapture { codec, width, height, framerate }
    }

    /// What the value side of `row` shows, given the listed capture devices:
    /// the cycled value of a selector row, the address (or an edit hint while
    /// it is empty) for the address row, nothing for the action rows.
    pub open spec fn row_value_spec(&self, row: Row, devices: Seq<CaptureDevice>) -> Option<
        Seq<char>,
    > {
        match row {
            Row::Device => Some(
                cyc_spec(
                    if 0 <= self.device_spec() < devices.len() {
                        devices[self.device_spec()].name@
                    } else {
                        "(no capture device)"@
                    },
                ),
            ),
            Row::Codec => Some(cyc_spec(codec_text(self.codec_spec()))),
            Row::Resolution => Some(cyc_spec(res_text(self.res_spec()))),
            Row::Framerate => Some(cyc_spec(fps_text(self.fps_spec()))),
            Row::Transport => Some(
                cyc_spec(
                    match transport_choice_spec(self.transport_spec()) {
                        Some((label, _)) => label,
                        None => "ADB"@,
                    },
                ),
            ),
            Row::Address => Some(
                if self.address_spec()@.len() == 0 {
                    "[ press Ⓐ to edit ]"@
                } else {
                    self.address_spec()@
                },
            ),
            Row::Audio => Some(
                cyc_spec(
                    if self.audio_spec() {
                        "On"@
                    } else {
                        "Off"@
                    },
                ),
            ),
            Row::Connect | Row::Close => None,
        }
    }

    /// The value text of `row` (see [`Menu::row_value_spec`]); while the
    /// address is being edited the app shows an edit field there instead.
    pub fn row_value(&self, row: Row, devices: &[CaptureDevice]) -> (r: Option<String>)
        requires
            self.wf(),
        ensures
            match self.row_value_spec(row, devices@) {
                Some(v) => r matches Some(s) && s@ == v,
                None => r is None,
            },
    {
        proof {
            reveal_strlit("(no capture device)");
            reveal_strlit("Auto");
            reveal_strlit("×");
            reveal_strlit(" fps");
            reveal_strlit("ADB");
            reveal_strlit("[ press Ⓐ to edit ]");
            reveal_strlit("On");
            reveal_strlit("Off");
        }
        match row {
            Row::Device => {
                if self.device_idx < devices.len() {
                    Some(cyc(devices[self.device_idx].name.as_str()))
                } else {
                    Some(cyc("(no capture device)"))
                }
            },
            Row::Codec => match self.current_codec() {
                Some(c) => Some(cyc(c.label())),
                None => Some(cyc("Auto")),
            },
            Row::Resolution => match self.current_res() {
                Some((w, h)) => {
                    let mut t = String::new();
                    push_decimal(&mut t, w as u64);
                    t.append("×");
                    push_decimal(&mut t, h as u64);
                    Some(cyc(t.as_str()))
                },
                None => Some(cyc("Auto")),
            },
            Row::Framerate => match self.current_fps() {
                Some(f) => {
                    let mut t = String::new();
                    push_decimal(&mut t, f as u64);
                    t.append(" fps");
                    Some(cyc(t.as_str()))
                },
                None => Some(cyc("Auto")),
            },
            Row::Transport => match transport_choice(self.transport_idx) {
                Some((label, _)) => Some(cyc(label)),
                None => Some(cyc("ADB")),
            },
            Row::Address => {
                if self.address.unicode_len() == 0 {
                    Some(String::from_str("[ press Ⓐ to edit ]"))
                } else {
                    Some(self.address.clone())
                }
            },
            Row::Audio => {
                if self.audio {
                    Some(cyc("On"))
                } else {
                    Some(cyc("Off"))
                }
            },
            Row::Connect | Row::Close => None,
        }
    }

    /// The transport kind of the selected option (ADB if out of range).
    pub fn selected_transport(&self) -> (r: TransportKind)
        ensures
            r == transport_for_choice_spec(self.transport_spec()),
    {
        transport_for_choice(self.transport_idx)
    }

    /// Open or close the menu; closing leaves address editing.
    pub fn toggle_open(&mut self)
        requires
            old(self).wf(),
        ensures
            final(self).wf(),
            final(self).is_open_spec() == !old(self).is_open_spec(),
            final(self).editing_spec() == (old(self).editing_spec() && final(self).is_open_spec()),
            final(self).address_spec() == old(self).address_spec(),
            final(self).focus_spec() == old(self).focus_spec(),
            final(self).selected_spec() == old(self).selected_spec(),
            final(self).codec_spec() == old(self).codec_spec(),
            final(self).res_spec() == old(self).res_spec(),
            final(self).fps_spec() == old(self).fps_spec(),
            final(self).device_spec() == old(self).device_spec(),
            final(self).transport_spec() == old(self).transport_spec(),
            final(self).audio_spec() == old(self).audio_spec(),
            final(self).formats_spec() == old(self).formats_spec(),
    {
        self.open = !self.open;
        if !self.open {
            self.editing_address = false;
        }
    }

    /// A directional nav step. Up/Down move the cursor (wrapping);
    /// Left/Right cycle the selected row's value.
    pub fn nav(&mut self, dir: NavDir, device_count: usize) -> (r: MenuAction)
        requires
            old(self).wf(),
        ensures
            final(self).wf(),
            dir == NavDir::Up ==> final(self).selected_spec() == (old(self).selected_spec() + ROW_COUNT - 1) % (ROW_COUNT as int) && r == MenuAction::Nothing,
            dir == NavDir::Down ==> final(self).selected_spec() == (old(self).selected_spec() + 1) % (ROW_COUNT as int) && r == MenuAction::Nothing,
            (dir == NavDir::Up || dir == NavDir::Down) ==> same_but_cursor(*old(self), *final(self)),
            dir == NavDir::Left ==> cycled(*old(self), *final(self), -1, device_count as int, r),
            dir == NavDir::Right ==> cycled(*old(self), *final(self), 1, device_count as int, r),
    {
        match dir {
            NavDir::Up => {
                self.selected = (self.selected + ROW_COUNT - 1) % ROW_COUNT;
                MenuAction::Nothing
            },
            NavDir::Down => {
                self.selected = (self.selected + 1) % ROW_COUNT;
                MenuAction::Nothing
            },
            NavDir::Left => self.cycle(-1, device_count),
            NavDir::Right => self.cycle(1, device_count),
        }
    }

    /// Cycle the value of the selected row by `delta` (see [`cycled`]).
    pub fn cycle(&mut self, delta: i32, device_count: usize) -> (r: MenuAction)
        requires
            old(self).wf(),
        ensures
            final(self).wf(),
            cycled(*old(self), *final(self), delta as int, device_count as int, r),
    {
        let row = row_at(self.selected);
        match row {
            Row::Device => {
                if device_count > 0 {
                    self.device_idx = wrap(self.device_idx, delta, device_count);
                    MenuAction::SelectDevice(self.device_idx)
                } else {
                    MenuAction::Nothing
                }
            },
            Row::Codec => {
                let prev_res = self.current_res();
                let prev_fps = self.current_fps();
                self.codec_idx = wrap(self.codec_idx, delta, self.codec_opts.len());
                self.on_codec_changed(prev_res, prev_fps);
                self.capture_action()
            },
            Row::Resolution => {
                let prev_fps = self.current_fps();
                self.res_idx = wrap(self.res_idx, delta, self.res_opts.len());
                self.recompute_fps_opts();
                self.select_fps(prev_fps);
                self.capture_action()
            },
            Row::Framerate => {
                self.fps_idx = wrap(self.fps_idx, delta, self.fps_opts.len());
                self.capture_action()
            },
            Row::Transport => {
                self.transport_idx = wrap(self.transport_idx, delta, TRANSPORT_CHOICE_COUNT);
                MenuAction::Nothing
            },
            Row::Audio => {
                self.audio = !self.audio;
                MenuAction::SetAudio(self.audio)
            },
            _ => MenuAction::Nothing,
        }
    }

    /// The A button: activate the selected row (edit the address, connect or
    /// close).
    pub fn activate(&mut self) -> (r: MenuAction)
        requires
            old(self).wf(),
        ensures
            final(self).wf(),
            unchanged_values(*old(self), *final(self)),
            final(self).selected_spec() == old(self).selected_spec(),
            final(self).is_open_spec() == old(self).is_open_spec(),
            final(self).address_spec() == old(self).address_spec(),
            match row_spec(old(self).selected_spec()) {
                Row::Address => r == MenuAction::Nothing && final(self).editing_spec()
                    && final(self).focus_spec(),
                Row::Connect => r == MenuAction::Connect && final(self).editing_spec()
                    == old(self).editing_spec() && final(self).focus_spec()
                    == old(self).focus_spec(),
                Row::Close => r == MenuAction::Close && final(self).editing_spec()
                    == old(self).editing_spec() && final(self).focus_spec()
                    == old(self).focus_spec(),
                _ => r == MenuAction::Nothing && final(self).editing_spec()
                    == old(self).editing_spec() && final(self).focus_spec()
                    == old(self).focus_spec(),
            },
    {
        match row_at(self.selected) {
            Row::Address => {
                self.editing_address = true;
                self.focus_address = true;
                MenuAction::Nothing
            },
            Row::Connect => MenuAction::Connect,
            Row::Close => MenuAction::Close,
            _ => MenuAction::Nothing,
        }
    }

    /// The B button: leave edit mode if editing, else close the menu.
    pub fn back(&mut self) -> (r: MenuAction)
        requires
            old(self).wf(),
        ensures
            final(self).wf(),
            unchanged_values(*old(self), *final(self)),
            final(self).selected_spec() == old(self).selected_spec(),
            final(self).is_open_spec() == old(self).is_open_spec(),
            final(self).address_spec() == old(self).address_spec(),
            final(self).focus_spec() == old(self).focus_spec(),
            !final(self).editing_spec(),
            r == if old(self).editing_spec() {
                MenuAction::Nothing
            } else {
                MenuAction::Close
            },
    {
        if self.editing_address {
            self.editing_address = false;
            MenuAction::Nothing
        } else {
            MenuAction::Close
        }
    }
}

/// The `SetCapture` action of a selection.
pub open spec fn capture_action_spec(
    codec: Option<CaptureCodec>,
    res: Option<(u32, u32)>,
    fps: Option<u32>,
) -> MenuAction {
    MenuAction::SetCapture {
        codec,
        width: match res {
            Some(p) => Some(p.0),
            None => None,
        },
        height: match res {
            Some(p) => Some(p.1),
            None => None,
        },
        framerate: fps,
    }
}

/// Every chosen value (device, transport, audio, capture format) is the same
/// in `a` and `b`.
pub open spec fn unchanged_values(a: Menu, b: Menu) -> bool {
    &&& b.codec_spec() == a.codec_spec()
    &&& b.res_spec() == a.res_spec()
    &&& b.fps_spec() == a.fps_spec()
    &&& b.device_spec() == a.device_spec()
    &&& b.transport_spec() == a.transport_spec()
    &&& b.audio_spec() == a.audio_spec()
    &&& b.formats_spec() == a.formats_spec()
}

/// `b` is `a` with at most the cursor moved: every chosen value, the option
/// lists and the position of each choice in its list, the open and editing
/// flags, the address text and the focus request are the same.
pub open spec fn same_but_cursor(a: Menu, b: Menu) -> bool {
    &&& unchanged_values(a, b)
    &&& b.res_options_spec() == a.res_options_spec()
    &&& b.fps_options_spec() == a.fps_options_spec()
    &&& codec_index_of(b) == codec_index_of(a)
    &&& res_index_of(b) == res_index_of(a)
    &&& fps_index_of(b) == fps_index_of(a)
    &&& b.is_open_spec() == a.is_open_spec()
    &&& b.editing_spec() == a.editing_spec()
    &&& b.address_spec() == a.address_spec()
    &&& b.focus_spec() == a.focus_spec()
}

/// `b` is `a` after cycling the selected row's value by `delta` with
/// `device_count` devices, answering `r`:
/// * Device row (with devices): the device index wraps by `delta`;
///   `SelectDevice` with the new index.
/// * Format row: the codec wraps by `delta`; the resolution and then the
///   framerate are kept if the new codec still offers them, else Auto;
///   `SetCapture` with the new selection.
/// * Resolution row: the resolution wraps; the framerate is kept if offered.
/// * Framerate row: the framerate wraps.
/// * Transport row: the transport option wraps over the offered options.
/// * Audio row: audio flips; `SetAudio` with the new value.
/// * Any other row (or the device row without devices): nothing changes.
pub open spec fn cycled(a: Menu, b: Menu, delta: int, device_count: int, r: MenuAction) -> bool {
    &&& b.selected_spec() == a.selected_spec()
    &&& b.formats_spec() == a.formats_spec()
    &&& b.is_open_spec() == a.is_open_spec()
    &&& b.editing_spec() == a.editing_spec()
    &&& b.address_spec() == a.address_spec()
    &&& b.focus_spec() == a.focus_spec()
    &&& match row_spec(a.selected_spec()) {
        Row::Device => if device_count > 0 {
            &&& b.device_spec() == wrap_spec(a.device_spec(), delta, device_count)
            &&& r == MenuAction::SelectDevice(b.device_spec() as usize)
            &&& b.codec_spec() == a.codec_spec() && b.res_spec() == a.res_spec() && b.fps_spec()
                == a.fps_spec()
            &&& b.transport_spec() == a.transport_spec() && b.audio_spec() == a.audio_spec()
        } else {
            unchanged_values(a, b) && r == MenuAction::Nothing
        },
        Row::Codec => {
            &&& b.codec_spec() == codec_options(a.formats_spec())[wrap_spec(
                codec_index_of(a),
                delta,
                codec_options(a.formats_spec()).len() as int,
            )]
            &&& b.res_spec() == keep_res(b.formats_spec(), b.codec_spec(), a.res_spec())
            &&& b.fps_spec() == keep_fps(b.formats_spec(), b.codec_spec(), b.res_spec(), a.fps_spec())
            &&& r == capture_action_spec(b.codec_spec(), b.res_spec(), b.fps_spec())
            &&& b.device_spec() == a.device_spec() && b.transport_spec() == a.transport_spec()
                && b.audio_spec() == a.audio_spec()
        },
        Row::Resolution => {
            &&& b.codec_spec() == a.codec_spec()
            &&& b.res_spec() == a.res_options_spec()[wrap_spec(
                res_index_of(a),
                delta,
                a.res_options_spec().len() as int,
            )]
            &&& b.fps_spec() == keep_fps(b.formats_spec(), b.codec_spec(), b.res_spec(), a.fps_spec())
            &&& r == capture_action_spec(b.codec_spec(), b.res_spec(), b.fps_spec())
            &&& b.device_spec() == a.device_spec() && b.transport_spec() == a.transport_spec()
                && b.audio_spec() == a.audio_spec()
        },
        Row::Framerate => {
            &&& b.codec_spec() == a.codec_spec() && b.res_spec() == a.res_spec()
            &&& b.fps_spec() == a.fps_options_spec()[wrap_spec(
                fps_index_of(a),
                delta,
                a.fps_options_spec().len() as int,
            )]
            &&& r == capture_action_spec(b.codec_spec(), b.res_spec(), b.fps_spec())
            &&& b.device_spec() == a.device_spec() && b.transport_spec() == a.transport_spec()
                && b.audio_spec() == a.audio_spec()
        },
        Row::Transport => {
            &&& b.transport_spec() == wrap_spec(a.transport_spec(), delta, TRANSPORT_CHOICE_COUNT as int)
            &&& r == MenuAction::Nothing
            &&& b.codec_spec() == a.codec_spec() && b.res_spec() == a.res_spec() && b.fps_spec()
                == a.fps_spec()
            &&& b.device_spec() == a.device_spec() && b.audio_spec() == a.audio_spec()
        },
        Row::Audio => {
            &&& b.audio_spec() == !a.audio_spec()
            &&& r == MenuAction::SetAudio(b.audio_spec())
            &&& b.codec_spec() == a.codec_spec() && b.res_spec() == a.res_spec() && b.fps_spec()
                == a.fps_spec()
            &&& b.device_spec() == a.device_spec() && b.transport_spec() == a.transport_spec()
        },
        _ => unchanged_values(a, b) && r == MenuAction::Nothing,
    }
}

/// The position of the selected codec among its options.
pub closed spec fn codec_index_of(m: Menu) -> int {
    m.codec_idx as int
}

/// The position of the selected resolution among its options.
pub closed spec fn res_index_of(m: Menu) -> int {
    m.res_idx as int
}

/// The position of the selected framerate among its options.
pub closed spec fn fps_index_of(m: Menu) -> int {
    m.fps_idx as int
}

proof fn lemma_codec_in_order(c: CaptureCodec) -> (k: int)
    ensures
        0 <= k < 7,
        crate::device::codec_order()[k] == c,
        crate::device::codec_order().contains(c),
{
    let k: int = match c {
        CaptureCodec::Mjpeg => 0,
        CaptureCodec::H264 => 1,
        CaptureCodec::Yuyv => 2,
        CaptureCodec::Nv12 => 3,
        CaptureCodec::I420 => 4,
        CaptureCodec::P010 => 5,
        CaptureCodec::Bgr => 6,
    };
    assert(crate::device::codec_order()[k] == c);
    k
}

proof fn lemma_filter_none(s: Seq<CaptureCodec>, pred: spec_fn(CaptureCodec) -> bool)
    requires
        forall|i: int| 0 <= i < s.len() ==> !pred(#[trigger] s[i]),
    ensures
        s.filter(pred).len() == 0,
    decreases s.len(),
{
    reveal_with_fuel(Seq::<CaptureCodec>::filter, 1);
    if s.len() > 0 {
        let t = s.drop_last();
        assert forall|i: int| 0 <= i < t.len() implies !pred(#[trigger] t[i]) by {
            assert(t[i] == s[i]);
        }
        lemma_filter_none(t, pred);
        assert(!pred(s.last()));
    }
}

/// The wrap step stays within its range and a step back undoes a step
/// forward.
pub proof fn law_wrap_round_trip(idx: int, len: int)
    requires
        0 <= idx < len,
    ensures
        0 <= wrap_spec(idx, 1, len) < len,
        wrap_spec(wrap_spec(idx, 1, len), -1, len) == idx,
        wrap_spec(wrap_spec(idx, -1, len), 1, len) == idx,
{
    vstd::arithmetic::div_mod::lemma_mod_pos_bound(idx + 1, len);
    vstd::arithmetic::div_mod::lemma_add_mod_noop_right(-1, idx + 1, len);
    vstd::arithmetic::div_mod::lemma_small_mod(idx as nat, len as nat);
    vstd::arithmetic::div_mod::lemma_add_mod_noop_right(1, idx - 1, len);
    assert(-1 + (idx + 1) == idx);
    assert(1 + (idx - 1) == idx);
}

/// Moving the cursor down and then up (or up and then down) returns the menu
/// to where it was: the same row, and nothing else changed on the way.
pub proof fn law_cursor_round_trip(a: Menu, b: Menu, c: Menu)
    requires
        0 <= a.selected_spec() < ROW_COUNT,
        same_but_cursor(a, b),
        same_but_cursor(b, c),
        (b.selected_spec() == (a.selected_spec() + 1) % (ROW_COUNT as int) && c.selected_spec()
            == (b.selected_spec() + ROW_COUNT - 1) % (ROW_COUNT as int)) || (b.selected_spec()
            == (a.selected_spec() + ROW_COUNT - 1) % (ROW_COUNT as int) && c.selected_spec() == (
        b.selected_spec() + 1) % (ROW_COUNT as int)),
    ensures
        c.selected_spec() == a.selected_spec(),
        same_but_cursor(a, c),
{
}

/// Where each choice sits in its option list: the chosen codec, resolution
/// and framerate are the entries at [`codec_index_of`], [`res_index_of`] and
/// [`fps_index_of`], the positions [`cycled`] steps from. The codec and
/// resolution lists hold each option once, so each of those positions is the
/// one of the chosen value; the framerate list does too when the mode's own
/// framerate list repeats none.
pub proof fn lemma_choice_positions(m: Menu)
    requires
        m.wf(),
    ensures
        0 <= codec_index_of(m) < codec_options(m.formats_spec()).len(),
        codec_options(m.formats_spec())[codec_index_of(m)] == m.codec_spec(),
        codec_options(m.formats_spec()).no_duplicates(),
        res_options_ok(m.res_options_spec(), m.formats_spec(), m.codec_spec()),
        0 <= res_index_of(m) < m.res_options_spec().len(),
        m.res_options_spec()[res_index_of(m)] == m.res_spec(),
        m.res_options_spec().no_duplicates(),
        m.fps_options_spec() == fps_options(m.formats_spec(), m.codec_spec(), m.res_spec()),
        0 <= fps_index_of(m) < m.fps_options_spec().len(),
        m.fps_options_spec()[fps_index_of(m)] == m.fps_spec(),
        m.codec_spec() is Some && m.res_spec() is Some && framerates_spec(
            m.formats_spec(),
            m.codec_spec()->0,
            m.res_spec()->0,
        ).no_duplicates() ==> m.fps_options_spec().no_duplicates(),
{
    let fs = m.formats_spec();
    let cs = codecs_spec(fs);
    let order = crate::device::codec_order();
    assert(order.no_duplicates());
    crate::debug::lemma_filter_keeps_no_duplicates(order, crate::device::offered_in(fs));
    let some_c = |c: CaptureCodec| Some(c);
    cs.lemma_no_duplicates_injective(some_c);
    let co = codec_options(fs);
    assert forall|i: int, j: int| 0 <= i < co.len() && 0 <= j < co.len() && i != j implies co[i]
        != co[j] by {
        if i > 0 && j > 0 {
            assert(co[i] == cs.map_values(some_c)[i - 1]);
            assert(co[j] == cs.map_values(some_c)[j - 1]);
        } else if i > 0 {
            assert(co[i] == Some(cs[i - 1]));
        } else {
            assert(co[j] == Some(cs[j - 1]));
        }
    }
    let ro = m.res_options_spec();
    assert forall|i: int, j: int| 0 <= i < ro.len() && 0 <= j < ro.len() && i != j implies ro[i]
        != ro[j] by {
        if 0 < i < j {
            assert(res_before(ro[i]->0, ro[j]->0));
        } else if 0 < j < i {
            assert(res_before(ro[j]->0, ro[i]->0));
        } else if i == 0 {
            assert(ro[j] is Some);
        } else {
            assert(ro[i] is Some);
        }
    }
    if m.codec_spec() is Some && m.res_spec() is Some {
        let rates = framerates_spec(fs, m.codec_spec()->0, m.res_spec()->0);
        if rates.no_duplicates() {
            let some_f = |f: u32| Some(f);
            rates.lemma_no_duplicates_injective(some_f);
            let fo = m.fps_options_spec();
            assert forall|i: int, j: int|
                0 <= i < fo.len() && 0 <= j < fo.len() && i != j implies fo[i] != fo[j] by {
                if i > 0 && j > 0 {
                    assert(fo[i] == rates.map_values(some_f)[i - 1]);
                    assert(fo[j] == rates.map_values(some_f)[j - 1]);
                } else if i > 0 {
                    assert(fo[i] == Some(rates[i - 1]));
                } else {
                    assert(fo[j] == Some(rates[j - 1]));
                }
            }
        }
    }
}

/// Whatever the menu was told, its current capture choices are always offered
/// by the active device: the codec is one the device has, the resolution one
/// the codec has, and the framerate one that mode has.
pub proof fn law_selection_is_offered(m: Menu)
    requires
        m.wf(),
    ensures
        m.codec_spec() matches Some(c) ==> codec_offered(m.formats_spec(), c),
        m.res_spec() matches Some(p) ==> m.codec_spec() is Some && res_offered(
            m.formats_spec(),
            m.codec_spec()->0,
            p,
        ),
        m.fps_spec() matches Some(f) ==> m.codec_spec() is Some && m.res_spec() is Some
            && framerates_spec(m.formats_spec(), m.codec_spec()->0, m.res_spec()->0).contains(f),
        m.codec_spec() is None ==> m.res_options_spec() =~= seq![None] && m.fps_options_spec()
            =~= seq![None],
{
    let fs = m.formats_spec();
    if let Some(c) = m.codec_spec() {
        let cs = codecs_spec(fs);
        let k = m.codec_idx as int;
        assert(k >= 1);
        assert(cs[k - 1] == c);
        assert(cs.contains(c));
        crate::device::codec_order().lemma_filter_pred(crate::device::offered_in(fs), k - 1);
    }
    if let Some(p) = m.res_spec() {
        assert(m.res_idx >= 1);
        assert(m.res_opts@[m.res_idx as int]->0 == p);
    }
    if let Some(f) = m.fps_spec() {
        assert(m.fps_idx >= 1);
        let c = m.codec_spec();
        let r = m.res_spec();
        if c is Some && r is Some {
            let rates = framerates_spec(fs, c->0, r->0);
            assert(rates[m.fps_idx - 1] == f);
        }
    }
    if m.codec_spec() is None {
        if m.res_opts@.len() > 1 {
            assert(m.res_opts@[1]->0 == m.res_opts@[1]->0);
        }
        assert(m.res_opts@.len() == 1);
        assert(m.res_opts@ =~= seq![None]);
    }
}

} // verus!
