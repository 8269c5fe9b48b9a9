//! The description of the single shared capture pipeline.
//!
//! Video and audio run through one GStreamer pipeline (one clock, hence A/V
//! sync). This module decides the `gst-launch`-style text of that pipeline;
//! the app hands it to GStreamer.
use vstd::prelude::*;

use crate::config::MediaPrefs;
use crate::text::{decimal, has_infix, push_decimal};

verus! {

/// Parameters for building the capture pipeline.
#[derive(Debug, Clone)]
pub struct PipelineConfig {
    /// The V4L2 device node to capture from, e.g. `/dev/video0`.
    pub device_node: String,
    /// Preferred output width (post-decode scaling); `None` = device default.
    pub width: Option<u32>,
    /// Preferred output height.
    pub height: Option<u32>,
    /// Preferred framerate in fps.
    pub framerate: Option<u32>,
    /// Whether to include the PipeWire audio branch.
    pub audio: bool,
}

impl PipelineConfig {
    /// A config for `device_node` with audio on and no format overrides.
    pub fn new(device_node: &str) -> (r: Self)
        ensures
            r.device_node@ == device_node@,
            r.width is None,
            r.height is None,
            r.framerate is None,
            r.audio,
    {
        PipelineConfig {
            device_node: String::from_str(device_node),
            width: None,
            height: None,
            framerate: None,
            audio: true,
        }
    }
}

impl PipelineConfig {
    /// The config capturing from `device_node` with the user's media
    /// preferences (size, framerate, audio).
    pub fn for_device(device_node: &str, media: &MediaPrefs) -> (r: Self)
        ensures
            r.device_node@ == device_node@,
            r.width == media.width,
            r.height == media.height,
            r.framerate == media.framerate,
            r.audio == media.audio,
    {
        PipelineConfig {
            device_node: String::from_str(device_node),
            width: media.width,
            height: media.height,
            framerate: media.framerate,
            audio: media.audio,
        }
    }
}

/// The head of the video branch, ending in the decoder and converter.
pub open spec fn video_source_spec(node: Seq<char>) -> Seq<char> {
    "v4l2src device="@ + node + " do-timestamp=true ! decodebin ! videoconvert ! "@
}

/// The optional caps filter pinning the requested width/height/framerate.
pub open spec fn caps_filter_spec(width: Option<u32>, height: Option<u32>, framerate: Option<u32>) -> Seq<
    char,
> {
    if width is Some || height is Some || framerate is Some {
        "videoscale ! videorate ! video/x-raw"@ + match width {
            Some(w) => ",width="@ + decimal(w as nat),
            None => Seq::empty(),
        } + match height {
            Some(h) => ",height="@ + decimal(h as nat),
            None => Seq::empty(),
        } + match framerate {
            Some(f) => ",framerate="@ + decimal(f as nat) + "/1"@,
            None => Seq::empty(),
        } + " ! "@
    } else {
        Seq::empty()
    }
}

/// The low-latency tail of the video branch: a short leaky queue and an
/// unsynchronized paintable sink.
pub open spec fn video_sink_spec() -> Seq<char> {
    "queue leaky=downstream max-size-buffers=3 max-size-time=0 max-size-bytes=0 ! gtk4paintablesink name=videosink sync=false"@
}

/// The independent audio chain in the same pipeline (and clock).
pub open spec fn audio_branch_spec() -> Seq<char> {
    "  pipewiresrc ! queue leaky=downstream max-size-time=20000000 ! audioconvert ! audioresample ! autoaudiosink"@
}

/// The whole pipeline description for `config`, with the audio branch when
/// `with_audio`.
pub open spec fn description_spec(config: PipelineConfig, with_audio: bool) -> Seq<char> {
    video_source_spec(config.device_node@) + caps_filter_spec(
        config.width,
        config.height,
        config.framerate,
    ) + video_sink_spec() + if with_audio {
        audio_branch_spec()
    } else {
        Seq::empty()
    }
}

/// Assemble the `gst-launch`-style pipeline description.
///
/// `decodebin` auto-plugs whatever the dongle exposes (MJPEG / H.264 / raw);
/// a short `leaky=downstream` queue plus `sync=false` on the sink collapse
/// GStreamer's default buffering toward one-frame latency. The audio branch
/// keeps default sync so the shared clock preserves A/V alignment.
pub fn build_description(config: &PipelineConfig, with_audio: bool) -> (r: String)
    ensures
        r@ == description_spec(*config, with_audio),
{
    let mut desc = String::from_str("v4l2src device=");
    desc.append(config.device_node.as_str());
    desc.append(" do-timestamp=true ! decodebin ! videoconvert ! ");
    assert(desc@ == video_source_spec(config.device_node@));
    let ghost head = desc@;

    if config.width.is_some() || config.height.is_some() || config.framerate.is_some() {
        desc.append("videoscale ! videorate ! video/x-raw");
        let ghost s0 = desc@;
        if let Some(w) = config.width {
            desc.append(",width=");
            push_decimal(&mut desc, w as u64);
        }
        let ghost s1 = desc@;
        if let Some(h) = config.height {
            desc.append(",height=");
            push_decimal(&mut desc, h as u64);
        }
        let ghost s2 = desc@;
        if let Some(fps) = config.framerate {
            desc.append(",framerate=");
            push_decimal(&mut desc, fps as u64);
            desc.append("/1");
        }
        desc.append(" ! ");
        assert(desc@ =~= head + caps_filter_spec(config.width, config.height, config.framerate));
    } else {
        assert(desc@ =~= head + caps_filter_spec(config.width, config.height, config.framerate));
    }
    let ghost mid = desc@;
    desc.append(
        "queue leaky=downstream max-size-buffers=3 max-size-time=0 max-size-bytes=0 ! gtk4paintablesink name=videosink sync=false",
    );
    if with_audio {
        desc.append(
            "  pipewiresrc ! queue leaky=downstream max-size-time=20000000 ! audioconvert ! audioresample ! autoaudiosink",
        );
    }
    assert(desc@ =~= description_spec(*config, with_audio));
    desc
}

proof fn lemma_infix_of_concat(a: Seq<char>, b: Seq<char>, c: Seq<char>)
    ensures
        has_infix(a + b + c, b),
{
    let s = a + b + c;
    assert(s.subrange(a.len() as int, (a.len() + b.len()) as int) =~= b);
}

/// The description always captures from the configured device and always ends
/// the video branch in the low-latency sink; the audio chain is present when
/// requested.
pub proof fn law_description_shape(config: PipelineConfig, with_audio: bool)
    ensures
        has_infix(description_spec(config, with_audio), "v4l2src device="@ + config.device_node@),
        has_infix(description_spec(config, with_audio), video_sink_spec()),
        with_audio ==> has_infix(description_spec(config, with_audio), audio_branch_spec()),
{
    let d = description_spec(config, with_audio);
    let src = "v4l2src device="@ + config.device_node@;
    let rest1 = " do-timestamp=true ! decodebin ! videoconvert ! "@ + caps_filter_spec(
        config.width,
        config.height,
        config.framerate,
    ) + video_sink_spec() + if with_audio {
        audio_branch_spec()
    } else {
        Seq::empty()
    };
    assert(d =~= Seq::<char>::empty() + src + rest1);
    lemma_infix_of_concat(Seq::<char>::empty(), src, rest1);
    let pre2 = video_source_spec(config.device_node@) + caps_filter_spec(
        config.width,
        config.height,
        config.framerate,
    );
    let post2 = if with_audio {
        audio_branch_spec()
    } else {
        Seq::empty()
    };
    assert(d =~= pre2 + video_sink_spec() + post2);
    lemma_infix_of_concat(pre2, video_sink_spec(), post2);
    if with_audio {
        assert(d =~= (pre2 + video_sink_spec()) + audio_branch_spec() + Seq::<char>::empty());
        lemma_infix_of_concat(pre2 + video_sink_spec(), audio_branch_spec(), Seq::empty());
    }
}

/// Asking for a framerate adds exactly its `,framerate=N/1` field to the caps
/// filter (and the filter itself if nothing else was asked for): a description
/// without a framerate carries no framerate constraint at all.
pub proof fn law_framerate_only_adds_its_field(config: PipelineConfig, with_audio: bool, value: u32)
    ensures
        ({
            let without = description_spec((PipelineConfig { device_node: config.device_node, width: config.width, height: config.height, framerate: None, audio: config.audio }), with_audio);
            let with = description_spec((PipelineConfig { device_node: config.device_node, width: config.width, height: config.height, framerate: Some(value), audio: config.audio }), with_audio);
            let field = ",framerate="@ + decimal(value as nat) + "/1"@;
            let inserted = if config.width is Some || config.height is Some {
                field
            } else {
                "videoscale ! videorate ! video/x-raw"@ + field + " ! "@
            };
            exists|k: int|
                0 <= k <= without.len() && with == #[trigger] without.subrange(0, k) + inserted
                    + without.subrange(k, without.len() as int)
        }),
{
    let c0 = (PipelineConfig { device_node: config.device_node, width: config.width, height: config.height, framerate: None, audio: config.audio });
    let c1 = (PipelineConfig { device_node: config.device_node, width: config.width, height: config.height, framerate: Some(value), audio: config.audio });
    let without = description_spec(c0, with_audio);
    let with = description_spec(c1, with_audio);
    let field = ",framerate="@ + decimal(value as nat) + "/1"@;
    let inserted = if config.width is Some || config.height is Some {
        field
    } else {
        "videoscale ! videorate ! video/x-raw"@ + field + " ! "@
    };
    let head = video_source_spec(config.device_node@);
    let wp = match c0.width {
        Some(w) => ",width="@ + decimal(w as nat),
        None => Seq::<char>::empty(),
    };
    let hp = match c0.height {
        Some(h) => ",height="@ + decimal(h as nat),
        None => Seq::<char>::empty(),
    };
    let k: int = if config.width is Some || config.height is Some {
        (head.len() + "videoscale ! videorate ! video/x-raw"@.len() + wp.len() + hp.len()) as int
    } else {
        head.len() as int
    };
    assert(with =~= without.subrange(0, k) + inserted + without.subrange(k, without.len() as int));
}

/// Asking for a width adds exactly its `,width=N` field to the caps filter (and
/// the filter itself if nothing else was asked for).
pub proof fn law_width_only_adds_its_field(config: PipelineConfig, with_audio: bool, value: u32)
    ensures
        ({
            let without = description_spec((PipelineConfig { device_node: config.device_node, width: None, height: config.height, framerate: config.framerate, audio: config.audio }), with_audio);
            let with = description_spec((PipelineConfig { device_node: config.device_node, width: Some(value), height: config.height, framerate: config.framerate, audio: config.audio }), with_audio);
            let field = ",width="@ + decimal(value as nat);
            let inserted = if config.height is Some || config.framerate is Some {
                field
            } else {
                "videoscale ! videorate ! video/x-raw"@ + field + " ! "@
            };
            exists|k: int|
                0 <= k <= without.len() && with == #[trigger] without.subrange(0, k) + inserted
                    + without.subrange(k, without.len() as int)
        }),
{
    let c0 = (PipelineConfig { device_node: config.device_node, width: None, height: config.height, framerate: config.framerate, audio: config.audio });
    let c1 = (PipelineConfig { device_node: config.device_node, width: Some(value), height: config.height, framerate: config.framerate, audio: config.audio });
    let without = description_spec(c0, with_audio);
    let with = description_spec(c1, with_audio);
    let field = ",width="@ + decimal(value as nat);
    let inserted = if config.height is Some || config.framerate is Some {
        field
    } else {
        "videoscale ! videorate ! video/x-raw"@ + field + " ! "@
    };
    let head = video_source_spec(config.device_node@);
    let wp = match c0.width {
        Some(w) => ",width="@ + decimal(w as nat),
        None => Seq::<char>::empty(),
    };
    let hp = match c0.height {
        Some(h) => ",height="@ + decimal(h as nat),
        None => Seq::<char>::empty(),
    };
    let k: int = if config.height is Some || config.framerate is Some {
        (head.len() + "videoscale ! videorate ! video/x-raw"@.len()) as int
    } else {
        head.len() as int
    };
    assert(with =~= without.subrange(0, k) + inserted + without.subrange(k, without.len() as int));
}

/// Asking for a height adds exactly its `,height=N` field to the caps filter
/// (and the filter itself if nothing else was asked for).
pub proof fn law_height_only_adds_its_field(config: PipelineConfig, with_audio: bool, value: u32)
    ensures
        ({
            let without = description_spec((PipelineConfig { device_node: config.device_node, width: config.width, height: None, framerate: config.framerate, audio: config.audio }), with_audio);
            let with = description_spec((PipelineConfig { device_node: config.device_node, width: config.width, height: Some(value), framerate: config.framerate, audio: config.audio }), with_audio);
            let field = ",height="@ + decimal(value as nat);
            let inserted = if config.width is Some || config.framerate is Some {
                field
            } else {
                "videoscale ! videorate ! video/x-raw"@ + field + " ! "@
            };
            exists|k: int|
                0 <= k <= without.len() && with == #[trigger] without.subrange(0, k) + inserted
                    + without.subrange(k, without.len() as int)
        }),
{
    let c0 = (PipelineConfig { device_node: config.device_node, width: config.width, height: None, framerate: config.framerate, audio: config.audio });
    let c1 = (PipelineConfig { device_node: config.device_node, width: config.width, height: Some(value), framerate: config.framerate, audio: config.audio });
    let without = description_spec(c0, with_audio);
    let with = description_spec(c1, with_audio);
    let field = ",height="@ + decimal(value as nat);
    let inserted = if config.width is Some || config.framerate is Some {
        field
    } else {
        "videoscale ! videorate ! video/x-raw"@ + field + " ! "@
    };
    let head = video_source_spec(config.device_node@);
    let wp = match c0.width {
        Some(w) => ",width="@ + decimal(w as nat),
        None => Seq::<char>::empty(),
    };
    let hp = match c0.height {
        Some(h) => ",height="@ + decimal(h as nat),
        None => Seq::<char>::empty(),
    };
    let k: int = if config.width is Some || config.framerate is Some {
        (head.len() + "videoscale ! videorate ! video/x-raw"@.len() + wp.len()) as int
    } else {
        head.len() as int
    };
    assert(with =~= without.subrange(0, k) + inserted + without.subrange(k, without.len() as int));
}

} // verus!
