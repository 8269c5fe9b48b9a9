//! Capture devices and the formats they advertise.
//!
//! Device discovery and the per-device format probe are done by the app (they
//! talk to GStreamer and to the kernel); this module holds what they produce
//! and the decisions over it: which V4L2 fourcc is which codec, what caps a
//! codec pins in front of the decoder, how a probed frame interval becomes a
//! whole framerate, and how a device's formats are grouped for the menu.
use vstd::prelude::*;

verus! {

/// The capture input format a device delivers, i.e. a V4L2 pixel format or
/// compressed codec. Raw 10-bit `P010` drives the renderer's HDR path; every
/// other codec goes through the 8-bit SDR path.
#[derive(Debug, Clone, Copy, PartialEq, Eq, Hash, Structural)]
pub enum CaptureCodec {
    /// Motion-JPEG (`image/jpeg`, V4L2 `MJPG`).
    Mjpeg,
    /// H.264 (`video/x-h264`, V4L2 `H264`).
    H264,
    /// Packed 4:2:2 YUYV (V4L2 `YUYV`, GStreamer `YUY2`).
    Yuyv,
    /// Semi-planar 8-bit 4:2:0 (V4L2/GStreamer `NV12`).
    Nv12,
    /// Planar 8-bit 4:2:0 (V4L2 `YU12`, GStreamer `I420`).
    I420,
    /// Semi-planar 10-bit 4:2:0 (V4L2 `P010`, GStreamer `P010_10LE`).
    P010,
    /// Packed 24-bit BGR (V4L2 `BGR3`, GStreamer `BGR`).
    Bgr,
}

/// Codecs in their stable display order.
pub open spec fn codec_order() -> Seq<CaptureCodec> {
    seq![
        CaptureCodec::Mjpeg,
        CaptureCodec::H264,
        CaptureCodec::Yuyv,
        CaptureCodec::Nv12,
        CaptureCodec::I420,
        CaptureCodec::P010,
        CaptureCodec::Bgr,
    ]
}

/// The GStreamer source caps a codec pins in front of the decoder.
pub open spec fn source_caps_spec(c: CaptureCodec) -> Seq<char> {
    match c {
        CaptureCodec::Mjpeg => "image/jpeg"@,
        CaptureCodec::H264 => "video/x-h264"@,
        CaptureCodec::Yuyv => "video/x-raw,format=YUY2"@,
        CaptureCodec::Nv12 => "video/x-raw,format=NV12"@,
        CaptureCodec::I420 => "video/x-raw,format=I420"@,
        CaptureCodec::P010 => "video/x-raw,format=P010_10LE"@,
        CaptureCodec::Bgr => "video/x-raw,format=BGR"@,
    }
}

/// The short menu label of a codec.
pub open spec fn codec_label_spec(c: CaptureCodec) -> Seq<char> {
    match c {
        CaptureCodec::Mjpeg => "MJPEG"@,
        CaptureCodec::H264 => "H.264"@,
        CaptureCodec::Yuyv => "YUYV"@,
        CaptureCodec::Nv12 => "NV12"@,
        CaptureCodec::I420 => "I420"@,
        CaptureCodec::P010 => "P010"@,
        CaptureCodec::Bgr => "BGR"@,
    }
}

/// The V4L2 fourcc of a codec, as its four ASCII bytes.
pub open spec fn fourcc_spec(c: CaptureCodec) -> Seq<u8> {
    match c {
        CaptureCodec::Mjpeg => seq![77u8, 74u8, 80u8, 71u8],  // MJPG
        CaptureCodec::H264 => seq![72u8, 50u8, 54u8, 52u8],  // H264
        CaptureCodec::Yuyv => seq![89u8, 85u8, 89u8, 86u8],  // YUYV
        CaptureCodec::Nv12 => seq![78u8, 86u8, 49u8, 50u8],  // NV12
        CaptureCodec::I420 => seq![89u8, 85u8, 49u8, 50u8],  // YU12
        CaptureCodec::P010 => seq![80u8, 48u8, 49u8, 48u8],  // P010
        CaptureCodec::Bgr => seq![66u8, 71u8, 82u8, 51u8],  // BGR3
    }
}

/// The codec whose fourcc is `f`, if any.
pub open spec fn codec_of_fourcc(f: Seq<u8>) -> Option<CaptureCodec> {
    if exists|c: CaptureCodec| fourcc_spec(c) == f {
        Some(choose|c: CaptureCodec| fourcc_spec(c) == f)
    } else {
        None
    }
}

/// Whether the four bytes of `f` are `a b c d`.
fn fourcc_is(f: &[u8; 4], a: u8, b: u8, c: u8, d: u8) -> (r: bool)
    ensures
        r == (f@ == seq![a, b, c, d]),
{
    let r = f[0] == a && f[1] == b && f[2] == c && f[3] == d;
    proof {
        if r {
            assert(f@ =~= seq![a, b, c, d]);
        } else if f@ == seq![a, b, c, d] {
            assert(f@[0] == a && f@[1] == b && f@[2] == c && f@[3] == d);
        }
    }
    r
}

impl CaptureCodec {
    /// The leading GStreamer source caps this codec pins in front of the
    /// decoder (media type plus, for raw formats, the exact `format=`).
    pub fn source_caps(&self) -> (r: &'static str)
        ensures
            r@ == source_caps_spec(*self),
    {
        match self {
            CaptureCodec::Mjpeg => "image/jpeg",
            CaptureCodec::H264 => "video/x-h264",
            CaptureCodec::Yuyv => "video/x-raw,format=YUY2",
            CaptureCodec::Nv12 => "video/x-raw,format=NV12",
            CaptureCodec::I420 => "video/x-raw,format=I420",
            CaptureCodec::P010 => "video/x-raw,format=P010_10LE",
            CaptureCodec::Bgr => "video/x-raw,format=BGR",
        }
    }

    /// A short human label for the menu.
    pub fn label(&self) -> (r: &'static str)
        ensures
            r@ == codec_label_spec(*self),
    {
        match self {
            CaptureCodec::Mjpeg => "MJPEG",
            CaptureCodec::H264 => "H.264",
            CaptureCodec::Yuyv => "YUYV",
            CaptureCodec::Nv12 => "NV12",
            CaptureCodec::I420 => "I420",
            CaptureCodec::P010 => "P010",
            CaptureCodec::Bgr => "BGR",
        }
    }

    /// Map a V4L2 fourcc (e.g. `*b"NV12"`) to a codec, if recognized.
    pub fn from_fourcc(fourcc: [u8; 4]) -> (r: Option<Self>)
        ensures
            r == codec_of_fourcc(fourcc@),
    {
        proof {
            lemma_fourcc_injective();
        }
        if fourcc_is(&fourcc, 77, 74, 80, 71) {
            assert(fourcc_spec(CaptureCodec::Mjpeg) == fourcc@);
            Some(CaptureCodec::Mjpeg)
        } else if fourcc_is(&fourcc, 72, 50, 54, 52) {
            assert(fourcc_spec(CaptureCodec::H264) == fourcc@);
            Some(CaptureCodec::H264)
        } else if fourcc_is(&fourcc, 89, 85, 89, 86) {
            assert(fourcc_spec(CaptureCodec::Yuyv) == fourcc@);
            Some(CaptureCodec::Yuyv)
        } else if fourcc_is(&fourcc, 78, 86, 49, 50) {
            assert(fourcc_spec(CaptureCodec::Nv12) == fourcc@);
            Some(CaptureCodec::Nv12)
        } else if fourcc_is(&fourcc, 89, 85, 49, 50) {
            assert(fourcc_spec(CaptureCodec::I420) == fourcc@);
            Some(CaptureCodec::I420)
        } else if fourcc_is(&fourcc, 80, 48, 49, 48) {
            assert(fourcc_spec(CaptureCodec::P010) == fourcc@);
            Some(CaptureCodec::P010)
        } else if fourcc_is(&fourcc, 66, 71, 82, 51) {
            assert(fourcc_spec(CaptureCodec::Bgr) == fourcc@);
            Some(CaptureCodec::Bgr)
        } else {
            assert forall|c: CaptureCodec| fourcc_spec(c) != fourcc@ by {
                match c {
                    CaptureCodec::Mjpeg => {},
                    _ => {},
                }
            }
            None
        }
    }
}

/// Distinct codecs have distinct fourccs.
proof fn lemma_fourcc_injective()
    ensures
        forall|a: CaptureCodec, b: CaptureCodec|
            #[trigger] fourcc_spec(a) == #[trigger] fourcc_spec(b) ==> a == b,
{
    assert forall|a: CaptureCodec, b: CaptureCodec|
        #[trigger] fourcc_spec(a) == #[trigger] fourcc_spec(b) implies a == b by {
        if a != b {
            let fa = fourcc_spec(a);
            let fb = fourcc_spec(b);
            assert(fa[0] != fb[0] || fa[1] != fb[1] || fa[2] != fb[2] || fa[3] != fb[3]);
        }
    }
}

/// Every codec's fourcc maps back to it, and only a codec's own fourcc maps to
/// it.
pub proof fn law_fourcc_round_trip(c: CaptureCodec, f: Seq<u8>)
    ensures
        codec_of_fourcc(fourcc_spec(c)) == Some(c),
        codec_of_fourcc(f) == Some(c) ==> f == fourcc_spec(c),
{
    lemma_fourcc_injective();
}

/// A capture format the device advertises: a codec at a fixed resolution with
/// the framerates it supports there.
#[derive(Debug, Clone, PartialEq, Eq)]
pub struct CaptureFormat {
    pub codec: CaptureCodec,
    pub width: u32,
    pub height: u32,
    /// Supported framerates in fps, sorted descending, deduped.
    pub framerates: Vec<u32>,
}

/// Whether some format of `formats` is in `codec`.
pub open spec fn codec_offered(formats: Seq<CaptureFormat>, codec: CaptureCodec) -> bool {
    exists|i: int| 0 <= i < formats.len() && #[trigger] formats[i].codec == codec
}

/// The distinct codecs of `formats`, in display order.
pub open spec fn codecs_spec(formats: Seq<CaptureFormat>) -> Seq<CaptureCodec> {
    codec_order().filter(offered_in(formats))
}

/// The predicate "offered by some format of `formats`".
pub open spec fn offered_in(formats: Seq<CaptureFormat>) -> spec_fn(CaptureCodec) -> bool {
    |c: CaptureCodec| codec_offered(formats, c)
}

fn codec_order_array() -> (r: [CaptureCodec; 7])
    ensures
        r@ == codec_order(),
{
    let r = [
        CaptureCodec::Mjpeg,
        CaptureCodec::H264,
        CaptureCodec::Yuyv,
        CaptureCodec::Nv12,
        CaptureCodec::I420,
        CaptureCodec::P010,
        CaptureCodec::Bgr,
    ];
    assert(r@ =~= codec_order());
    r
}

fn any_in_codec(formats: &[CaptureFormat], codec: CaptureCodec) -> (r: bool)
    ensures
        r == codec_offered(formats@, codec),
{
    let n = formats.len();
    let mut i: usize = 0;
    while i < n
        invariant
            n == formats@.len(),
            i <= n,
            forall|j: int| 0 <= j < i ==> #[trigger] formats@[j].codec != codec,
        decreases n - i,
    {
        if formats[i].codec == codec {
            return true;
        }
        i = i + 1;
    }
    false
}

/// The distinct codecs offered across `formats`, in stable display order.
pub fn codecs(formats: &[CaptureFormat]) -> (r: Vec<CaptureCodec>)
    ensures
        r@ == codecs_spec(formats@),
{
    let order = codec_order_array();
    let ghost pred = offered_in(formats@);
    let mut out: Vec<CaptureCodec> = Vec::new();
    let mut i: usize = 0;
    assert(codec_order().take(0) =~= Seq::<CaptureCodec>::empty());
    while i < 7
        invariant
            order@ == codec_order(),
            pred == offered_in(formats@),
            i <= 7,
            out@ == codec_order().take(i as int).filter(pred),
        decreases 7 - i,
    {
        assert(codec_order().take(i + 1) =~= codec_order().take(i as int).push(order@[i as int]));
        proof {
            codec_order().take(i as int).lemma_filter_push(order@[i as int], pred);
        }
        let c = order[i];
        assert(c == order@[i as int]);
        let offered = any_in_codec(formats, c);
        assert(offered_in(formats@)(c) == offered);
        let ghost prev = out@;
        if offered {
            out.push(c);
            assert(out@ == prev.push(c));
        }
        assert(codec_order().take(i as int).push(c).filter(pred) == if pred(c) {
            prev.push(c)
        } else {
            prev
        });
        assert(codec_order().take(i + 1) == codec_order().take(i as int).push(c));
        i = i + 1;
    }
    assert(codec_order().take(7) =~= codec_order());
    out
}

/// The pixel count of a resolution.
pub open spec fn area(p: (u32, u32)) -> int {
    p.0 as int * p.1 as int
}

/// Whether resolution `a` is listed before `b`: more pixels first, and among
/// equal pixel counts the larger `(width, height)` first.
pub open spec fn res_before(a: (u32, u32), b: (u32, u32)) -> bool {
    area(a) > area(b) || (area(a) == area(b) && (a.0 > b.0 || (a.0 == b.0 && a.1 > b.1)))
}

/// Every element is listed before every later one (so none repeats).
pub open spec fn res_strictly_ordered(s: Seq<(u32, u32)>) -> bool {
    forall|i: int, j: int| 0 <= i < j < s.len() ==> res_before(#[trigger] s[i], #[trigger] s[j])
}

/// Whether `formats[..upto]` offers resolution `p` in `codec`.
pub open spec fn res_offered_upto(
    formats: Seq<CaptureFormat>,
    codec: CaptureCodec,
    p: (u32, u32),
    upto: int,
) -> bool {
    exists|j: int|
        0 <= j < upto && #[trigger] formats[j].codec == codec && formats[j].width == p.0
            && formats[j].height == p.1
}

/// Whether `formats` offers resolution `p` in `codec`.
pub open spec fn res_offered(formats: Seq<CaptureFormat>, codec: CaptureCodec, p: (u32, u32)) -> bool {
    res_offered_upto(formats, codec, p, formats.len() as int)
}

proof fn lemma_area_fits(w: u32, h: u32)
    ensures
        0 <= w as int * h as int <= 0xffff_ffff_ffff_ffff,
{
    assert(0 <= w as int * h as int <= 0xffff_ffffint * 0xffff_ffffint) by (nonlinear_arith)
        requires
            w <= 0xffff_ffff,
            h <= 0xffff_ffff,
    ;
}

fn area_of(p: (u32, u32)) -> (r: u64)
    ensures
        r as int == area(p),
{
    proof {
        lemma_area_fits(p.0, p.1);
    }
    (p.0 as u64) * (p.1 as u64)
}

fn listed_before(a: (u32, u32), b: (u32, u32)) -> (r: bool)
    ensures
        r == res_before(a, b),
{
    let aa = area_of(a);
    let ab = area_of(b);
    aa > ab || (aa == ab && (a.0 > b.0 || (a.0 == b.0 && a.1 > b.1)))
}

/// Insert `p` into the ordered list `r` unless it is already there.
fn insert_resolution(r: &mut Vec<(u32, u32)>, p: (u32, u32))
    requires
        res_strictly_ordered(old(r)@),
    ensures
        res_strictly_ordered(final(r)@),
        forall|x: (u32, u32)| #[trigger] final(r)@.contains(x) <==> (old(r)@.contains(x) || x == p),
{
    let n = r.len();
    let mut k: usize = 0;
    while k < n && listed_before(r[k], p)
        invariant
            n == r@.len(),
            k <= n,
            forall|j: int| 0 <= j < k ==> res_before(#[trigger] r@[j], p),
        decreases n - k,
    {
        k = k + 1;
    }
    if k < n && r[k].0 == p.0 && r[k].1 == p.1 {
        assert(r@[k as int] == p);
        assert forall|x: (u32, u32)| #[trigger] r@.contains(x) <==> (r@.contains(x) || x == p) by {
            if x == p {
                assert(r@[k as int] == x);
            }
        }
        return;
    }
    let ghost old_r = r@;
    r.insert(k, p);
    let ghost new_r = r@;
    assert(new_r == old_r.insert(k as int, p));
    assert forall|i: int, j: int| 0 <= i < j < new_r.len() implies res_before(
        #[trigger] new_r[i],
        #[trigger] new_r[j],
    ) by {
        if j < k {
            assert(new_r[i] == old_r[i] && new_r[j] == old_r[j]);
        } else if j == k {
            assert(new_r[i] == old_r[i]);
        } else if i < k {
            assert(new_r[i] == old_r[i] && new_r[j] == old_r[j - 1]);
        } else if i == k {
            assert(new_r[j] == old_r[j - 1]);
            assert(res_before(p, old_r[k as int]));
            if j - 1 > k {
                assert(res_before(old_r[k as int], old_r[j - 1]));
            }
        } else {
            assert(new_r[i] == old_r[i - 1] && new_r[j] == old_r[j - 1]);
        }
    }
    assert forall|x: (u32, u32)| #[trigger] new_r.contains(x) <==> (old_r.contains(x) || x == p) by {
        if new_r.contains(x) {
            let i = choose|i: int| 0 <= i < new_r.len() && new_r[i] == x;
            if i < k {
                assert(old_r[i] == x);
            } else if i > k {
                assert(old_r[i - 1] == x);
            }
        }
        if old_r.contains(x) {
            let i = choose|i: int| 0 <= i < old_r.len() && old_r[i] == x;
            if i < k {
                assert(new_r[i] == x);
            } else {
                assert(new_r[i + 1] == x);
            }
        }
        if x == p {
            assert(new_r[k as int] == x);
        }
    }
}

/// The distinct resolutions offered for `codec`, sorted descending by pixel
/// count (then by `(width, height)`).
pub fn resolutions(formats: &[CaptureFormat], codec: CaptureCodec) -> (r: Vec<(u32, u32)>)
    ensures
        res_strictly_ordered(r@),
        forall|p: (u32, u32)| #[trigger] r@.contains(p) <==> res_offered(formats@, codec, p),
{
    let n = formats.len();
    let mut out: Vec<(u32, u32)> = Vec::new();
    let mut i: usize = 0;
    while i < n
        invariant
            n == formats@.len(),
            i <= n,
            res_strictly_ordered(out@),
            forall|p: (u32, u32)| #[trigger]
                out@.contains(p) <==> res_offered_upto(formats@, codec, p, i as int),
        decreases n - i,
    {
        let ghost before = out@;
        if formats[i].codec == codec {
            let p = (formats[i].width, formats[i].height);
            insert_resolution(&mut out, p);
            assert forall|x: (u32, u32)| #[trigger]
                out@.contains(x) <==> res_offered_upto(formats@, codec, x, i + 1) by {
                if res_offered_upto(formats@, codec, x, i + 1) {
                    let j = choose|j: int|
                        0 <= j < i + 1 && #[trigger] formats@[j].codec == codec && formats@[j].width
                            == x.0 && formats@[j].height == x.1;
                    if j < i {
                        assert(res_offered_upto(formats@, codec, x, i as int));
                    }
                }
                if before.contains(x) {
                    let j = choose|j: int|
                        0 <= j < i && #[trigger] formats@[j].codec == codec && formats@[j].width
                            == x.0 && formats@[j].height == x.1;
                    assert(0 <= j < i + 1);
                }
                if x == p {
                    assert(formats@[i as int].codec == codec);
                }
            }
        } else {
            assert forall|x: (u32, u32)| #[trigger]
                out@.contains(x) <==> res_offered_upto(formats@, codec, x, i + 1) by {
                if res_offered_upto(formats@, codec, x, i + 1) {
                    let j = choose|j: int|
                        0 <= j < i + 1 && #[trigger] formats@[j].codec == codec && formats@[j].width
                            == x.0 && formats@[j].height == x.1;
                    assert(j != i);
                    assert(res_offered_upto(formats@, codec, x, i as int));
                }
                if before.contains(x) {
                    let j = choose|j: int|
                        0 <= j < i && #[trigger] formats@[j].codec == codec && formats@[j].width
                            == x.0 && formats@[j].height == x.1;
                    assert(0 <= j < i + 1);
                }
            }
        }
        i = i + 1;
    }
    out
}

/// The framerates of the first format of `formats` in `codec` at `res`, or
/// none.
pub open spec fn framerates_spec(
    formats: Seq<CaptureFormat>,
    codec: CaptureCodec,
    res: (u32, u32),
) -> Seq<u32>
    decreases formats.len(),
{
    if formats.len() == 0 {
        Seq::empty()
    } else if formats[0].codec == codec && formats[0].width == res.0 && formats[0].height
        == res.1 {
        formats[0].framerates@
    } else {
        framerates_spec(formats.drop_first(), codec, res)
    }
}

fn copy_u32s(v: &Vec<u32>) -> (r: Vec<u32>)
    ensures
        r@ == v@,
{
    let mut out: Vec<u32> = Vec::new();
    let n = v.len();
    let mut i: usize = 0;
    while i < n
        invariant
            n == v@.len(),
            i <= n,
            out@ == v@.take(i as int),
        decreases n - i,
    {
        out.push(v[i]);
        assert(v@.take(i + 1) =~= v@.take(i as int).push(v@[i as int]));
        i = i + 1;
    }
    assert(v@.take(n as int) =~= v@);
    out
}

/// The framerates offered for `codec` at `(width, height)`, sorted descending.
pub fn framerates(formats: &[CaptureFormat], codec: CaptureCodec, res: (u32, u32)) -> (r: Vec<
    u32,
>)
    ensures
        r@ == framerates_spec(formats@, codec, res),
{
    let n = formats.len();
    let mut i: usize = 0;
    assert(formats@.skip(0) =~= formats@);
    while i < n
        invariant
            n == formats@.len(),
            i <= n,
            framerates_spec(formats@, codec, res) == framerates_spec(
                formats@.skip(i as int),
                codec,
                res,
            ),
        decreases n - i,
    {
        assert(formats@.skip(i as int).drop_first() =~= formats@.skip(i + 1));
        assert(formats@.skip(i as int)[0] == formats@[i as int]);
        if formats[i].codec == codec && formats[i].width == res.0 && formats[i].height == res.1 {
            return copy_u32s(&formats[i].framerates);
        }
        i = i + 1;
    }
    assert(formats@.skip(n as int).len() == 0);
    Vec::new()
}

/// The whole framerate of a frame interval of `num / den` seconds: `den / num`
/// rounded to the nearest integer (halves up), or `None` for a zero interval
/// or a rate that rounds below 1 fps.
pub open spec fn interval_fps_spec(num: u32, den: u32) -> Option<u32> {
    if num == 0 {
        None
    } else {
        let fps = (2 * den as int + num as int) / (2 * num as int);
        if fps >= 1 {
            Some(fps as u32)
        } else {
            None
        }
    }
}

/// The whole-fps rate of a frame interval (`fps = 1 / interval`).
pub fn interval_to_fps(num: u32, den: u32) -> (r: Option<u32>)
    ensures
        r == interval_fps_spec(num, den),
{
    if num == 0 {
        return None;
    }
    let top: u64 = 2 * (den as u64) + (num as u64);
    let bottom: u64 = 2 * (num as u64);
    let fps: u64 = top / bottom;
    proof {
        assert(fps <= den) by (nonlinear_arith)
            requires
                fps == top / bottom,
                top == 2 * den + num,
                bottom == 2 * num,
                num >= 1,
        ;
    }
    if fps >= 1 {
        Some(fps as u32)
    } else {
        None
    }
}

/// Every element is greater than every later one (so none repeats).
pub open spec fn strictly_descending(s: Seq<u32>) -> bool {
    forall|i: int, j: int| 0 <= i < j < s.len() ==> #[trigger] s[i] > #[trigger] s[j]
}

/// Whether some interval of `intervals[..upto]` has rate `fps`.
pub open spec fn fps_offered_upto(intervals: Seq<(u32, u32)>, fps: u32, upto: int) -> bool {
    exists|j: int|
        0 <= j < upto && #[trigger] interval_fps_spec(intervals[j].0, intervals[j].1) == Some(fps)
}

/// Insert `x` into the strictly descending list `r` unless it is already there.
fn insert_descending(r: &mut Vec<u32>, x: u32)
    requires
        strictly_descending(old(r)@),
    ensures
        strictly_descending(final(r)@),
        forall|y: u32| #[trigger] final(r)@.contains(y) <==> (old(r)@.contains(y) || y == x),
{
    let n = r.len();
    let mut k: usize = 0;
    while k < n && r[k] > x
        invariant
            n == r@.len(),
            k <= n,
            forall|j: int| 0 <= j < k ==> #[trigger] r@[j] > x,
        decreases n - k,
    {
        k = k + 1;
    }
    if k < n && r[k] == x {
        assert forall|y: u32| #[trigger] r@.contains(y) <==> (r@.contains(y) || y == x) by {
            if y == x {
                assert(r@[k as int] == y);
            }
        }
        return;
    }
    let ghost old_r = r@;
    r.insert(k, x);
    let ghost new_r = r@;
    assert forall|i: int, j: int| 0 <= i < j < new_r.len() implies #[trigger] new_r[i]
        > #[trigger] new_r[j] by {
        if j < k {
            assert(new_r[i] == old_r[i] && new_r[j] == old_r[j]);
        } else if j == k {
            assert(new_r[i] == old_r[i]);
        } else if i < k {
            assert(new_r[i] == old_r[i] && new_r[j] == old_r[j - 1]);
        } else if i == k {
            assert(new_r[j] == old_r[j - 1]);
            if j - 1 > k {
                assert(old_r[k as int] > old_r[j - 1]);
            }
        } else {
            assert(new_r[i] == old_r[i - 1] && new_r[j] == old_r[j - 1]);
        }
    }
    assert forall|y: u32| #[trigger] new_r.contains(y) <==> (old_r.contains(y) || y == x) by {
        if new_r.contains(y) {
            let i = choose|i: int| 0 <= i < new_r.len() && new_r[i] == y;
            if i < k {
                assert(old_r[i] == y);
            } else if i > k {
                assert(old_r[i - 1] == y);
            }
        }
        if old_r.contains(y) {
            let i = choose|i: int| 0 <= i < old_r.len() && old_r[i] == y;
            if i < k {
                assert(new_r[i] == y);
            } else {
                assert(new_r[i + 1] == y);
            }
        }
        if y == x {
            assert(new_r[k as int] == y);
        }
    }
}

/// The capture format probed for `codec` at `width` x `height` with frame
/// intervals `intervals` (each `(numerator, denominator)` seconds): the
/// interval rates rounded to whole fps, sorted descending and deduped.
pub fn capture_format(codec: CaptureCodec, width: u32, height: u32, intervals: &Vec<(u32, u32)>) -> (r:
    CaptureFormat)
    ensures
        r.codec == codec,
        r.width == width,
        r.height == height,
        strictly_descending(r.framerates@),
        forall|fps: u32| #[trigger]
            r.framerates@.contains(fps) <==> fps_offered_upto(
                intervals@,
                fps,
                intervals@.len() as int,
            ),
{
    let n = intervals.len();
    let mut rates: Vec<u32> = Vec::new();
    let mut i: usize = 0;
    while i < n
        invariant
            n == intervals@.len(),
            i <= n,
            strictly_descending(rates@),
            forall|fps: u32| #[trigger]
                rates@.contains(fps) <==> fps_offered_upto(intervals@, fps, i as int),
        decreases n - i,
    {
        let ghost before = rates@;
        let (num, den) = intervals[i];
        match interval_to_fps(num, den) {
            Some(fps) => {
                insert_descending(&mut rates, fps);
                assert forall|y: u32| #[trigger]
                    rates@.contains(y) <==> fps_offered_upto(intervals@, y, i + 1) by {
                    if fps_offered_upto(intervals@, y, i + 1) {
                        let j = choose|j: int|
                            0 <= j < i + 1 && #[trigger] interval_fps_spec(
                                intervals@[j].0,
                                intervals@[j].1,
                            ) == Some(y);
                        if j < i {
                            assert(fps_offered_upto(intervals@, y, i as int));
                        }
                    }
                    if before.contains(y) {
                        let j = choose|j: int|
                            0 <= j < i && #[trigger] interval_fps_spec(
                                intervals@[j].0,
                                intervals@[j].1,
                            ) == Some(y);
                        assert(0 <= j < i + 1);
                    }
                    if y == fps {
                        assert(interval_fps_spec(intervals@[i as int].0, intervals@[i as int].1)
                            == Some(y));
                    }
                }
            },
            None => {
                assert forall|y: u32| #[trigger]
                    rates@.contains(y) <==> fps_offered_upto(intervals@, y, i + 1) by {
                    if fps_offered_upto(intervals@, y, i + 1) {
                        let j = choose|j: int|
                            0 <= j < i + 1 && #[trigger] interval_fps_spec(
                                intervals@[j].0,
                                intervals@[j].1,
                            ) == Some(y);
                        assert(j != i);
                        assert(fps_offered_upto(intervals@, y, i as int));
                    }
                    if before.contains(y) {
                        let j = choose|j: int|
                            0 <= j < i && #[trigger] interval_fps_spec(
                                intervals@[j].0,
                                intervals@[j].1,
                            ) == Some(y);
                        assert(0 <= j < i + 1);
                    }
                }
            },
        }
        i = i + 1;
    }
    CaptureFormat { codec, width, height, framerates: rates }
}

/// A capture device the user can select.
#[derive(Debug, Clone, PartialEq, Eq)]
pub struct CaptureDevice {
    /// Human-readable name, e.g. "USB3 HDMI Capture".
    pub name: String,
    /// The V4L2 device node, e.g. `/dev/video0`.
    pub node: String,
    /// A stringified summary of the caps the device advertises, if available.
    pub caps: Option<String>,
    /// Structured capture formats read from V4L2 (best-effort; empty for a
    /// non-capture node or a device that could not be opened).
    pub formats: Vec<CaptureFormat>,
}

/// The name shown for `node`: the name of the first device of `devices` on that
/// node, or the node path itself when no listed device is on it.
pub open spec fn display_name_spec(devices: Seq<CaptureDevice>, node: Seq<char>) -> Seq<char>
    decreases devices.len(),
{
    if devices.len() == 0 {
        node
    } else if devices[0].node@ == node {
        devices[0].name@
    } else {
        display_name_spec(devices.drop_first(), node)
    }
}

/// The name to show for the capture device on `node`.
pub fn device_display_name(devices: &[CaptureDevice], node: &str) -> (r: String)
    ensures
        r@ == display_name_spec(devices@, node@),
{
    let key = String::from_str(node);
    let n = devices.len();
    let mut i: usize = 0;
    assert(devices@.skip(0) =~= devices@);
    while i < n
        invariant
            n == devices@.len(),
            i <= n,
            key@ == node@,
            display_name_spec(devices@, node@) == display_name_spec(devices@.skip(i as int), node@),
        decreases n - i,
    {
        assert(devices@.skip(i as int).drop_first() =~= devices@.skip(i + 1));
        assert(devices@.skip(i as int)[0] == devices@[i as int]);
        if devices[i].node == key {
            return devices[i].name.clone();
        }
        i = i + 1;
    }
    assert(devices@.skip(n as int).len() == 0);
    key
}

} // verus!
