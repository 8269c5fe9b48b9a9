use couchcast::device::{capture_format, codecs, device_display_name, framerates, interval_to_fps, resolutions};
use couchcast::{CaptureCodec, CaptureDevice, CaptureFormat};

#[test]
fn fourcc_and_source_caps_round_trip() {
    // V4L2 fourcc -> codec -> GStreamer source caps for the raw formats a
    // typical capture card exposes, including 10-bit P010.
    assert_eq!(
        CaptureCodec::from_fourcc(*b"NV12"),
        Some(CaptureCodec::Nv12)
    );
    assert_eq!(
        CaptureCodec::from_fourcc(*b"P010"),
        Some(CaptureCodec::P010)
    );
    assert_eq!(
        CaptureCodec::from_fourcc(*b"YU12"),
        Some(CaptureCodec::I420)
    );
    assert_eq!(
        CaptureCodec::from_fourcc(*b"MJPG"),
        Some(CaptureCodec::Mjpeg)
    );
    assert_eq!(CaptureCodec::from_fourcc(*b"XXXX"), None);

    assert_eq!(CaptureCodec::Nv12.source_caps(), "video/x-raw,format=NV12");
    assert_eq!(
        CaptureCodec::P010.source_caps(),
        "video/x-raw,format=P010_10LE"
    );
    assert_eq!(CaptureCodec::Mjpeg.source_caps(), "image/jpeg");
}

#[test]
fn helpers_group_by_codec_in_stable_order() {
    let formats = vec![
        CaptureFormat {
            codec: CaptureCodec::Mjpeg,
            width: 1920,
            height: 1080,
            framerates: vec![60, 30],
        },
        CaptureFormat {
            codec: CaptureCodec::Nv12,
            width: 1280,
            height: 720,
            framerates: vec![60, 30],
        },
        CaptureFormat {
            codec: CaptureCodec::P010,
            width: 1920,
            height: 1080,
            framerates: vec![60, 30, 25],
        },
        CaptureFormat {
            codec: CaptureCodec::P010,
            width: 1280,
            height: 720,
            framerates: vec![60],
        },
    ];

    // Codecs come back in display order (Mjpeg before the raw formats), not input order.
    assert_eq!(
        codecs(&formats),
        vec![CaptureCodec::Mjpeg, CaptureCodec::Nv12, CaptureCodec::P010]
    );
    // P010 resolutions, largest first.
    assert_eq!(
        resolutions(&formats, CaptureCodec::P010),
        vec![(1920, 1080), (1280, 720)]
    );
    assert_eq!(
        framerates(&formats, CaptureCodec::P010, (1920, 1080)),
        vec![60, 30, 25]
    );
}

#[test]
fn resolutions_are_deduped_and_ordered_by_pixels_then_size() {
    let f = |w, h| CaptureFormat {
        codec: CaptureCodec::Yuyv,
        width: w,
        height: h,
        framerates: vec![],
    };
    let formats = vec![
        f(640, 480),
        f(1920, 1080),
        f(640, 480),
        f(480, 640),
        f(1280, 720),
        CaptureFormat {
            codec: CaptureCodec::Bgr,
            width: 4096,
            height: 2160,
            framerates: vec![30],
        },
    ];
    assert_eq!(
        resolutions(&formats, CaptureCodec::Yuyv),
        vec![(1920, 1080), (1280, 720), (640, 480), (480, 640)]
    );
    assert_eq!(resolutions(&formats, CaptureCodec::H264), vec![]);
    assert_eq!(codecs(&formats), vec![CaptureCodec::Yuyv, CaptureCodec::Bgr]);
    assert_eq!(framerates(&formats, CaptureCodec::Yuyv, (320, 240)), Vec::<u32>::new());
}

#[test]
fn labels_and_all_fourccs() {
    assert_eq!(CaptureCodec::H264.label(), "H.264");
    assert_eq!(CaptureCodec::Yuyv.label(), "YUYV");
    assert_eq!(CaptureCodec::from_fourcc(*b"H264"), Some(CaptureCodec::H264));
    assert_eq!(CaptureCodec::from_fourcc(*b"YUYV"), Some(CaptureCodec::Yuyv));
    assert_eq!(CaptureCodec::from_fourcc(*b"BGR3"), Some(CaptureCodec::Bgr));
    assert_eq!(CaptureCodec::from_fourcc(*b"nv12"), None);
    assert_eq!(CaptureCodec::Bgr.source_caps(), "video/x-raw,format=BGR");
    assert_eq!(CaptureCodec::Yuyv.source_caps(), "video/x-raw,format=YUY2");
}

#[test]
fn frame_intervals_round_to_whole_fps() {
    assert_eq!(interval_to_fps(1, 60), Some(60));
    assert_eq!(interval_to_fps(1001, 30000), Some(30));
    assert_eq!(interval_to_fps(1001, 60000), Some(60));
    assert_eq!(interval_to_fps(2, 5), Some(3)); // 2.5 rounds up
    assert_eq!(interval_to_fps(0, 30), None);
    assert_eq!(interval_to_fps(3, 1), None); // 0.33 fps rounds to 0
    assert_eq!(interval_to_fps(2, 1), Some(1)); // 0.5 rounds up to 1
}

#[test]
fn probed_format_sorts_and_dedups_rates() {
    let fmt = capture_format(
        CaptureCodec::Nv12,
        1920,
        1080,
        &vec![(1, 30), (1001, 60000), (1, 60), (0, 1), (1, 25), (1, 30)],
    );
    assert_eq!(fmt.codec, CaptureCodec::Nv12);
    assert_eq!((fmt.width, fmt.height), (1920, 1080));
    assert_eq!(fmt.framerates, vec![60, 30, 25]);
}

#[test]
fn device_name_falls_back_to_node() {
    let devices = vec![
        CaptureDevice {
            name: "USB Capture".to_string(),
            node: "/dev/video0".to_string(),
            caps: None,
            formats: vec![],
        },
        CaptureDevice {
            name: "Other".to_string(),
            node: "/dev/video2".to_string(),
            caps: Some("video/x-raw".to_string()),
            formats: vec![],
        },
    ];
    assert_eq!(device_display_name(&devices, "/dev/video2"), "Other");
    assert_eq!(device_display_name(&devices, "/dev/video9"), "/dev/video9");
}
