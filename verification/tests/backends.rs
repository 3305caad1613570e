use scrap::{CaptureTimeout, Capturer, CapturerMag, Display, ErrorKind, TraitCapturer};

fn full_hd_display() -> Display {
    Display::new(1920, 1080, (0, 0), true, String::from("DISPLAY1"))
}

fn zero_timeout() -> CaptureTimeout {
    CaptureTimeout { secs: 0, nanos: 0 }
}

#[test]
fn capturer_caches_display_geometry() {
    let c = Capturer::new(full_hd_display()).unwrap();
    assert_eq!(c.width(), 1920);
    assert_eq!(c.height(), 1080);
    assert!(!c.is_gdi());
}

#[test]
fn capturer_rejects_zero_geometry() {
    let flat = Display::new(1920, 0, (0, 0), true, String::from("DISPLAY1"));
    match Capturer::new(flat) {
        Ok(_) => panic!("a zero-height display must be rejected"),
        Err(e) => assert_eq!(e, ErrorKind::InvalidInput),
    }
    let thin = Display::new(0, 1080, (0, 0), true, String::from("DISPLAY1"));
    assert_eq!(Capturer::new(thin).err(), Some(ErrorKind::InvalidInput));
}

#[test]
fn native_timeout_surfaces_as_would_block() {
    let mut c = Capturer::new(full_hd_display()).unwrap();
    match c.frame(zero_timeout(), Err(ErrorKind::TimedOut)) {
        Ok(_) => panic!("no frame was ready"),
        Err(e) => assert_eq!(e, ErrorKind::WouldBlock),
    }
}

#[test]
fn other_native_errors_surface_unchanged() {
    let mut c = Capturer::new(full_hd_display()).unwrap();
    for kind in [
        ErrorKind::DeviceLost,
        ErrorKind::AccessDenied,
        ErrorKind::Disconnected,
        ErrorKind::WouldBlock,
    ] {
        match c.frame(zero_timeout(), Err(kind)) {
            Ok(_) => panic!("the native error must propagate"),
            Err(e) => assert_eq!(e, kind),
        }
    }
}

#[test]
fn capturer_wraps_native_bytes_with_cached_height() {
    let d = Display::new(2, 3, (5, 5), true, String::from("DISPLAY2"));
    let mut c = Capturer::new(d).unwrap();
    let bytes: Vec<u8> = (0u8..24).collect();
    let f = c
        .frame(CaptureTimeout { secs: 1, nanos: 0 }, Ok(bytes.clone()))
        .unwrap();
    assert_eq!(f.stride(), vec![8usize]);
    assert_eq!(f.data(), &bytes[..]);
}

#[test]
fn capturer_gdi_toggle_round_trip() {
    let mut c = Capturer::new(full_hd_display()).unwrap();
    assert!(!c.is_gdi());
    assert!(c.set_gdi(true));
    assert!(c.is_gdi());
    c.cancel_gdi();
    assert!(!c.is_gdi());
    assert_eq!(c.width(), 1920);
    assert_eq!(c.height(), 1080);
}

#[test]
fn capturer_gdi_switch_not_honored_leaves_mode() {
    let mut c = Capturer::new(full_hd_display()).unwrap();
    assert!(!c.set_gdi(false));
    assert!(!c.is_gdi());
    assert!(c.set_gdi(true));
    assert!(!c.set_gdi(false));
    assert!(c.is_gdi());
    assert_eq!(c.width(), 1920);
}

#[test]
fn timeout_millis_truncates_sub_millisecond_remainder() {
    assert_eq!(CaptureTimeout { secs: 0, nanos: 999_999 }.millis(), 0);
    assert_eq!(CaptureTimeout { secs: 2, nanos: 3_500_000 }.millis(), 2003);
    assert_eq!(CaptureTimeout { secs: 1, nanos: 0 }.millis(), 1000);
}

#[test]
fn mag_is_supported_reports_native_probe() {
    assert!(CapturerMag::is_supported(true));
    assert!(!CapturerMag::is_supported(false));
}

#[test]
fn mag_reports_configured_rect() {
    let m = CapturerMag::new((-10, 20), 320, 200).unwrap();
    assert_eq!(m.get_rect(), ((-10, 20), 320, 200));
}

#[test]
fn mag_rejects_zero_region() {
    assert_eq!(
        CapturerMag::new((0, 0), 0, 200).err(),
        Some(ErrorKind::InvalidInput)
    );
    assert_eq!(
        CapturerMag::new((0, 0), 320, 0).err(),
        Some(ErrorKind::InvalidInput)
    );
}

#[test]
fn mag_exclude_propagates_native_outcome() {
    let mut m = CapturerMag::new((0, 0), 320, 200).unwrap();
    assert_eq!(m.exclude("ToolWindowClass", "Screen Picker", Ok(true)), Ok(true));
    assert_eq!(m.exclude("ToolWindowClass", "Hidden Picker", Ok(false)), Ok(false));
    assert_eq!(
        m.exclude("NoSuchClass", "No Such Window", Err(ErrorKind::NotFound)),
        Err(ErrorKind::NotFound)
    );
    assert_eq!(m.get_rect(), ((0, 0), 320, 200));
}

#[test]
fn mag_frame_uses_fresh_region_height() {
    let mut m = CapturerMag::new((0, 0), 4, 2).unwrap();
    let bytes: Vec<u8> = (0u8..16).collect();
    let f = m.frame(zero_timeout(), Ok(bytes.clone())).unwrap();
    assert_eq!(f.stride(), vec![8usize]);
    assert_eq!(f.data(), &bytes[..]);
}

#[test]
fn mag_frame_ignores_timeout_value() {
    let bytes: Vec<u8> = vec![7u8; 8];
    let mut m1 = CapturerMag::new((0, 0), 2, 2).unwrap();
    let mut m2 = CapturerMag::new((0, 0), 2, 2).unwrap();
    let r1 = m1.frame(zero_timeout(), Ok(bytes.clone()));
    let r2 = m2.frame(CaptureTimeout { secs: 3600, nanos: 1 }, Ok(bytes.clone()));
    let f1 = r1.unwrap();
    let f2 = r2.unwrap();
    assert_eq!(f1.data(), f2.data());
    assert_eq!(f1.stride(), f2.stride());

    let mut m3 = CapturerMag::new((0, 0), 2, 2).unwrap();
    let mut m4 = CapturerMag::new((0, 0), 2, 2).unwrap();
    let e1 = m3.frame(zero_timeout(), Err(ErrorKind::AccessDenied));
    let e2 = m4.frame(
        CaptureTimeout { secs: 3600, nanos: 1 },
        Err(ErrorKind::AccessDenied),
    );
    assert_eq!(e1.err(), e2.err());
}

#[test]
fn mag_does_not_remap_native_timeout() {
    let mut m = CapturerMag::new((0, 0), 2, 2).unwrap();
    assert_eq!(
        m.frame(zero_timeout(), Err(ErrorKind::TimedOut)).err(),
        Some(ErrorKind::TimedOut)
    );
}

#[test]
fn mag_is_never_gdi() {
    let mut m = CapturerMag::new((0, 0), 2, 2).unwrap();
    assert!(!m.is_gdi());
    assert!(!m.set_gdi(true));
    assert!(!m.is_gdi());
    assert_eq!(m.get_rect(), ((0, 0), 2, 2));
}

#[test]
fn full_hd_scenario() {
    let d = full_hd_display();
    assert!(d.is_primary());
    assert_eq!(d.width(), 1920);
    let mut c = Capturer::new(d).unwrap();
    match c.frame(zero_timeout(), Err(ErrorKind::TimedOut)) {
        Ok(_) => panic!("no frame was ready"),
        Err(e) => assert_eq!(e, ErrorKind::WouldBlock),
    }
    let buffer: Vec<u8> = vec![0u8; 1920 * 1080 * 4];
    let f = scrap::Frame::new(buffer, 1080);
    assert_eq!(f.stride()[0], 1920 * 4);
    assert_eq!(f.stride()[0], 7680);
}
