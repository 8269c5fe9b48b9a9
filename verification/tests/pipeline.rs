use couchcast::pipeline::build_description;
use couchcast::{MediaPrefs, PipelineConfig};

#[test]
fn description_includes_device_and_low_latency_sink() {
    let cfg = PipelineConfig::new("/dev/video0");
    let desc = build_description(&cfg, false);
    assert!(desc.contains("v4l2src device=/dev/video0"));
    assert!(desc.contains("gtk4paintablesink name=videosink sync=false"));
    assert!(!desc.contains("pipewiresrc"));
}

#[test]
fn audio_branch_is_added_when_requested() {
    let cfg = PipelineConfig::new("/dev/video0");
    let desc = build_description(&cfg, true);
    assert!(desc.contains("pipewiresrc"));
    assert!(desc.contains("autoaudiosink"));
}

#[test]
fn format_overrides_add_caps_filter() {
    let cfg = PipelineConfig {
        device_node: "/dev/video2".into(),
        width: Some(1920),
        height: Some(1080),
        framerate: Some(60),
        audio: false,
    };
    let desc = build_description(&cfg, false);
    assert!(desc.contains("width=1920"));
    assert!(desc.contains("height=1080"));
    assert!(desc.contains("framerate=60/1"));
}

#[test]
fn full_description_text() {
    let cfg = PipelineConfig {
        device_node: "/dev/video1".into(),
        width: None,
        height: Some(720),
        framerate: None,
        audio: true,
    };
    assert_eq!(
        build_description(&cfg, true),
        "v4l2src device=/dev/video1 do-timestamp=true ! decodebin ! videoconvert ! \
         videoscale ! videorate ! video/x-raw,height=720 ! \
         queue leaky=downstream max-size-buffers=3 max-size-time=0 max-size-bytes=0 ! \
         gtk4paintablesink name=videosink sync=false  \
         pipewiresrc ! queue leaky=downstream max-size-time=20000000 ! \
         audioconvert ! audioresample ! autoaudiosink"
    );
    let plain = PipelineConfig::new("/dev/video0");
    assert_eq!(
        build_description(&plain, false),
        "v4l2src device=/dev/video0 do-timestamp=true ! decodebin ! videoconvert ! \
         queue leaky=downstream max-size-buffers=3 max-size-time=0 max-size-bytes=0 ! \
         gtk4paintablesink name=videosink sync=false"
    );
}

#[test]
fn config_for_device_takes_media_prefs() {
    let media = MediaPrefs {
        codec: None,
        width: Some(1280),
        height: Some(720),
        framerate: Some(30),
        audio: false,
    };
    let cfg = PipelineConfig::for_device("/dev/video3", &media);
    assert_eq!(cfg.device_node, "/dev/video3");
    assert_eq!((cfg.width, cfg.height, cfg.framerate, cfg.audio), (Some(1280), Some(720), Some(30), false));
    let fresh = PipelineConfig::new("/dev/video0");
    assert!(fresh.audio && fresh.width.is_none() && fresh.framerate.is_none());
}
