use couchcast::menu::{cyc, row_at, row_index, row_title, wrap, Row, ROW_COUNT};
use couchcast::{CaptureCodec, CaptureDevice, CaptureFormat, Menu, MenuAction, NavDir, TransportKind};

fn fmt(codec: CaptureCodec, width: u32, height: u32, framerates: Vec<u32>) -> CaptureFormat {
    CaptureFormat {
        codec,
        width,
        height,
        framerates,
    }
}

fn sample_formats() -> Vec<CaptureFormat> {
    vec![
        fmt(CaptureCodec::Mjpeg, 1920, 1080, vec![60, 30]),
        fmt(CaptureCodec::Mjpeg, 1280, 720, vec![60, 30]),
        fmt(CaptureCodec::Nv12, 1280, 720, vec![10]),
    ]
}

#[test]
fn set_formats_seeds_from_prefs() {
    let mut menu = Menu::new(0, 0, String::new(), true);
    menu.set_formats(
        sample_formats(),
        Some(CaptureCodec::Mjpeg),
        Some(1920),
        Some(1080),
        Some(60),
    );
    assert_eq!(menu.current_codec(), Some(CaptureCodec::Mjpeg));
    assert_eq!(menu.current_res(), Some((1920, 1080)));
    assert_eq!(menu.current_fps(), Some(60));
}

#[test]
fn changing_codec_drops_unsupported_resolution_to_auto() {
    let mut menu = Menu::new(0, 0, String::new(), true);
    menu.set_formats(
        sample_formats(),
        Some(CaptureCodec::Mjpeg),
        Some(1920),
        Some(1080),
        Some(60),
    );
    // Select the Format row and cycle from MJPEG to NV12 (which lacks 1920x1080).
    menu.select_row(Row::Codec);
    let action = menu.cycle(1, 0);
    assert_eq!(menu.current_codec(), Some(CaptureCodec::Nv12));
    assert_eq!(menu.current_res(), None); // reset to Auto
    assert_eq!(menu.current_fps(), None);
    assert_eq!(
        action,
        MenuAction::SetCapture {
            codec: Some(CaptureCodec::Nv12),
            width: None,
            height: None,
            framerate: None,
        }
    );
}

#[test]
fn changing_codec_keeps_shared_resolution() {
    let mut menu = Menu::new(0, 0, String::new(), true);
    menu.set_formats(
        sample_formats(),
        Some(CaptureCodec::Mjpeg),
        Some(1280),
        Some(720),
        Some(60),
    );
    // 1280x720 exists for NV12 too, so it survives the codec switch; but NV12
    // only offers 10 fps there, so the 60 fps selection falls back to Auto.
    menu.select_row(Row::Codec);
    menu.cycle(1, 0);
    assert_eq!(menu.current_codec(), Some(CaptureCodec::Nv12));
    assert_eq!(menu.current_res(), Some((1280, 720)));
    assert_eq!(menu.current_fps(), None);
}

#[test]
fn auto_codec_forces_auto_resolution_and_framerate() {
    let mut menu = Menu::new(0, 0, String::new(), true);
    menu.set_formats(sample_formats(), None, None, None, None);
    assert_eq!(menu.current_codec(), None);
    // With no codec pinned there are no specific device modes to offer.
    assert_eq!(menu.res_opts(), &vec![None]);
    assert_eq!(menu.fps_opts(), &vec![None]);
}

#[test]
fn unknown_prefs_fall_back_to_auto() {
    let mut menu = Menu::new(0, 0, String::new(), true);
    menu.set_formats(
        sample_formats(),
        Some(CaptureCodec::P010),
        Some(1920),
        Some(1080),
        Some(60),
    );
    assert_eq!(menu.current_codec(), None);
    assert_eq!(menu.current_res(), None);
    assert_eq!(menu.current_fps(), None);
    menu.set_formats(
        sample_formats(),
        Some(CaptureCodec::Mjpeg),
        Some(1920),
        Some(1080),
        Some(25),
    );
    assert_eq!(menu.current_codec(), Some(CaptureCodec::Mjpeg));
    assert_eq!(menu.current_res(), Some((1920, 1080)));
    assert_eq!(menu.current_fps(), None);
    assert_eq!(menu.res_opts(), &vec![None, Some((1920, 1080)), Some((1280, 720))]);
    assert_eq!(menu.fps_opts(), &vec![None, Some(60), Some(30)]);
    assert_eq!(
        menu.capture_selection(),
        (Some(CaptureCodec::Mjpeg), Some(1920), Some(1080), None)
    );
}

#[test]
fn cursor_wraps_around_the_rows() {
    let mut menu = Menu::new(0, 0, String::new(), true);
    assert_eq!(menu.nav(NavDir::Up, 0), MenuAction::Nothing);
    assert_eq!(menu.selected(), ROW_COUNT - 1);
    assert_eq!(menu.selected_row(), Row::Close);
    menu.nav(NavDir::Down, 0);
    assert_eq!(menu.selected(), 0);
    menu.nav(NavDir::Down, 0);
    assert_eq!(menu.selected_row(), Row::Codec);
}

#[test]
fn rows_cycle_their_values() {
    let mut menu = Menu::new(1, 0, String::new(), true);
    // Device row wraps over the device count.
    assert_eq!(menu.nav(NavDir::Right, 3), MenuAction::SelectDevice(2));
    assert_eq!(menu.nav(NavDir::Right, 3), MenuAction::SelectDevice(0));
    assert_eq!(menu.nav(NavDir::Left, 3), MenuAction::SelectDevice(2));
    // Without devices nothing happens.
    assert_eq!(menu.nav(NavDir::Left, 0), MenuAction::Nothing);
    assert_eq!(menu.device_idx(), 2);
    // Transport row cycles over the offered transports.
    menu.select_row(Row::Transport);
    assert_eq!(menu.selected_transport(), TransportKind::Adb);
    assert_eq!(menu.nav(NavDir::Right, 3), MenuAction::Nothing);
    assert_eq!(menu.selected_transport(), TransportKind::Log);
    menu.nav(NavDir::Right, 3);
    assert_eq!(menu.selected_transport(), TransportKind::Adb);
    // Audio flips.
    menu.select_row(Row::Audio);
    assert_eq!(menu.nav(NavDir::Left, 3), MenuAction::SetAudio(false));
    assert!(!menu.audio());
    // Framerate and resolution rows cycle within their lists.
    menu.set_formats(sample_formats(), Some(CaptureCodec::Mjpeg), None, None, None);
    menu.select_row(Row::Resolution);
    assert_eq!(
        menu.nav(NavDir::Right, 3),
        MenuAction::SetCapture {
            codec: Some(CaptureCodec::Mjpeg),
            width: Some(1920),
            height: Some(1080),
            framerate: None
        }
    );
    menu.select_row(Row::Framerate);
    assert_eq!(
        menu.nav(NavDir::Left, 3),
        MenuAction::SetCapture {
            codec: Some(CaptureCodec::Mjpeg),
            width: Some(1920),
            height: Some(1080),
            framerate: Some(30)
        }
    );
}

#[test]
fn activate_back_and_toggle() {
    let mut menu = Menu::new(0, 0, String::new(), true);
    assert!(!menu.open);
    menu.toggle_open();
    assert!(menu.open);
    menu.select_row(Row::Address);
    assert_eq!(menu.activate(), MenuAction::Nothing);
    assert!(menu.editing_address && menu.focus_address);
    assert_eq!(menu.back(), MenuAction::Nothing);
    assert!(!menu.editing_address);
    assert_eq!(menu.back(), MenuAction::Close);
    menu.select_row(Row::Connect);
    assert_eq!(menu.activate(), MenuAction::Connect);
    menu.select_row(Row::Close);
    assert_eq!(menu.activate(), MenuAction::Close);
    menu.select_row(Row::Address);
    menu.activate();
    menu.toggle_open();
    assert!(!menu.open && !menu.editing_address);
}

#[test]
fn wrap_steps_both_ways() {
    assert_eq!(wrap(0, -1, 9), 8);
    assert_eq!(wrap(8, 1, 9), 0);
    assert_eq!(wrap(3, 20, 9), 5);
    assert_eq!(wrap(3, -20, 9), 1);
    assert_eq!(wrap(5, 1, 0), 0);
    assert_eq!(wrap(12, 0, 5), 2);
    assert_eq!(row_at(row_index(Row::Audio)), Row::Audio);
    assert_eq!(cyc("NV12"), "‹  NV12  ›");
}

#[test]
fn rows_show_their_current_values() {
    let devices = vec![CaptureDevice {
        name: "USB3 HDMI Capture".to_string(),
        node: "/dev/video0".to_string(),
        caps: None,
        formats: sample_formats(),
    }];
    let mut menu = Menu::new(0, 1, String::new(), false);
    assert_eq!(menu.row_value(Row::Device, &devices).as_deref(), Some("‹  USB3 HDMI Capture  ›"));
    assert_eq!(menu.row_value(Row::Device, &[]).as_deref(), Some("‹  (no capture device)  ›"));
    assert_eq!(menu.row_value(Row::Codec, &devices).as_deref(), Some("‹  Auto  ›"));
    assert_eq!(menu.row_value(Row::Resolution, &devices).as_deref(), Some("‹  Auto  ›"));
    assert_eq!(menu.row_value(Row::Framerate, &devices).as_deref(), Some("‹  Auto  ›"));
    assert_eq!(
        menu.row_value(Row::Transport, &devices).as_deref(),
        Some("‹  Log (debug, no device)  ›")
    );
    assert_eq!(menu.row_value(Row::Address, &devices).as_deref(), Some("[ press Ⓐ to edit ]"));
    assert_eq!(menu.row_value(Row::Audio, &devices).as_deref(), Some("‹  Off  ›"));
    assert_eq!(menu.row_value(Row::Connect, &devices), None);
    assert_eq!(menu.row_value(Row::Close, &devices), None);

    menu.set_formats(
        sample_formats(),
        Some(CaptureCodec::Mjpeg),
        Some(1920),
        Some(1080),
        Some(60),
    );
    assert_eq!(menu.row_value(Row::Codec, &devices).as_deref(), Some("‹  MJPEG  ›"));
    assert_eq!(menu.row_value(Row::Resolution, &devices).as_deref(), Some("‹  1920×1080  ›"));
    assert_eq!(menu.row_value(Row::Framerate, &devices).as_deref(), Some("‹  60 fps  ›"));

    let menu = Menu::new(3, 9, "10.0.0.7".to_string(), true);
    assert_eq!(menu.row_value(Row::Device, &devices).as_deref(), Some("‹  (no capture device)  ›"));
    assert_eq!(menu.row_value(Row::Transport, &devices).as_deref(), Some("‹  ADB  ›"));
    assert_eq!(menu.row_value(Row::Address, &devices).as_deref(), Some("10.0.0.7"));
    assert_eq!(menu.row_value(Row::Audio, &devices).as_deref(), Some("‹  On  ›"));
}

#[test]
fn row_titles() {
    assert_eq!(row_title(Row::Device), "Capture device");
    assert_eq!(row_title(Row::Codec), "Format");
    assert_eq!(row_title(Row::Transport), "Forward input to");
    assert_eq!(row_title(Row::Address), "Target address");
    assert_eq!(row_title(Row::Audio), "Audio passthrough");
    assert_eq!(row_title(Row::Close), "Close");
}

#[test]
fn down_then_up_leaves_the_menu_as_it_was() {
    let mut menu = Menu::new(0, 0, "10.0.0.2".to_string(), true);
    menu.toggle_open();
    menu.select_row(Row::Address);
    menu.activate();
    assert!(menu.editing_address && menu.focus_address);
    assert_eq!(menu.nav(NavDir::Down, 1), MenuAction::Nothing);
    assert_eq!(menu.nav(NavDir::Up, 1), MenuAction::Nothing);
    assert_eq!(menu.selected_row(), Row::Address);
    assert!(menu.open && menu.editing_address && menu.focus_address);
    assert_eq!(menu.address, "10.0.0.2");
    assert_eq!(menu.back(), MenuAction::Nothing);
    assert_eq!(menu.address, "10.0.0.2");
    assert!(menu.focus_address);
}

#[test]
fn developer_hook_opens_the_menu() {
    let menu = Menu::new(2, 1, "h".to_string(), false).with_open(true);
    assert!(menu.open);
    assert_eq!(menu.selected_row(), Row::Device);
    assert_eq!(menu.device_idx(), 2);
    assert_eq!(menu.transport_idx(), 1);
    assert_eq!(menu.address, "h");
    assert!(!menu.audio());
    assert!(!Menu::new(0, 0, String::new(), true).with_open(false).open);
}
