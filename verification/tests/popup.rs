use podctl::caps::Model;
use podctl::model::{Battery, DeviceState, Event, Mode};
use podctl::popup::{
    apply_status, backend_order, battery_recovered, detect, fingerprint, flag, handle_event,
    is_shown, mode_label, ramp, show_now, theme_is_light, BackendKind, Notify, Pod, PopupAction,
    Snapshot, Tier,
};

#[test]
fn low_threshold() {
    let mut s = Snapshot::sample();
    assert!(!s.low(), "82/79/64 is not low");
    s.right = Pod {
        level: Some(24),
        charging: false,
    };
    assert!(s.low(), "right 24% must be low");
    s.right = Pod {
        level: Some(25),
        charging: false,
    };
    assert!(!s.low(), "25% is the boundary, not below");
}

fn battery(l: u8, r: u8, c: u8) -> Battery {
    Battery {
        left: Some(l),
        right: Some(r),
        case: Some(c),
        ..Battery::default()
    }
}

#[test]
fn lid_open_is_debounced_and_close_hides() {
    let mut s = Snapshot::initial();
    let mut armed = false;
    assert_eq!(
        handle_event(&mut s, &mut armed, Event::CaseLid { open: true }, false, false),
        PopupAction::ScheduleOpen
    );
    assert_eq!(
        handle_event(&mut s, &mut armed, Event::CaseLid { open: true }, true, true),
        PopupAction::Nothing
    );
    assert_eq!(
        handle_event(&mut s, &mut armed, Event::CaseLid { open: false }, true, true),
        PopupAction::CancelOpen { hide: true }
    );
}

#[test]
fn low_battery_pops_once_per_dip() {
    let mut s = Snapshot::initial();
    let mut armed = false;
    assert_eq!(
        handle_event(&mut s, &mut armed, Event::Battery(battery(20, 60, 60)), false, false),
        PopupAction::Show
    );
    assert!(armed);
    assert_eq!(
        handle_event(&mut s, &mut armed, Event::Battery(battery(19, 60, 60)), true, true),
        PopupAction::Refresh
    );
    assert_eq!(
        handle_event(&mut s, &mut armed, Event::Battery(battery(27, 60, 60)), false, true),
        PopupAction::Nothing
    );
    assert!(armed);
    assert_eq!(
        handle_event(&mut s, &mut armed, Event::Battery(battery(28, 60, 60)), false, true),
        PopupAction::Nothing
    );
    assert!(!armed);
    assert_eq!(
        handle_event(&mut s, &mut armed, Event::Battery(battery(10, 60, 60)), false, true),
        PopupAction::Show
    );
    assert_eq!(s.left, Pod { level: Some(10), charging: false });
}

#[test]
fn mode_connect_and_disconnect() {
    let mut s = Snapshot::initial();
    let mut armed = false;
    assert_eq!(
        handle_event(&mut s, &mut armed, Event::Mode(Mode::Adaptive), false, false),
        PopupAction::Show
    );
    assert_eq!(s.mode, Some(Mode::Adaptive));
    assert_eq!(handle_event(&mut s, &mut armed, Event::ShowPopup, false, false), PopupAction::Show);
    assert_eq!(
        handle_event(&mut s, &mut armed, Event::Disconnected, false, false),
        PopupAction::Nothing
    );
    assert!(!s.connected);
    assert_eq!(s.mode, None);
    assert_eq!(s.case, Pod::default());
}

#[test]
fn status_keeps_known_model_and_recovery_band() {
    let mut s = Snapshot::sample();
    let mut ds = DeviceState::default();
    ds.connected = true;
    apply_status(&mut s, &ds);
    assert_eq!(s.model, "AirPods Pro 2");
    ds.capabilities = Model::Max.capabilities();
    apply_status(&mut s, &ds);
    assert_eq!(s.model, "AirPods Max");
    assert!(battery_recovered(&battery(28, 90, 90)));
    assert!(!battery_recovered(&battery(27, 90, 90)));
    assert!(battery_recovered(&Battery::default()));
}

#[test]
fn backend_order_and_detection() {
    assert_eq!(
        backend_order("wayland").unwrap(),
        vec![BackendKind::Wl, BackendKind::X11, BackendKind::Notify]
    );
    assert_eq!(backend_order("x11_or").unwrap(), vec![BackendKind::X11, BackendKind::Notify]);
    assert_eq!(
        backend_order("gtk").unwrap_err(),
        "unknown backend 'gtk' (use wl|x11|notify)"
    );
    assert_eq!(detect(true, true, true), "wl");
    assert_eq!(detect(true, true, false), "x11");
    assert_eq!(detect(false, false, false), "notify");
}

#[test]
fn fingerprint_is_fnv1a() {
    assert_eq!(fingerprint(&[]), 0xcbf2_9ce4_8422_2325);
    assert_eq!(fingerprint(b"a"), 0xaf63_dc4c_8601_ec8c);
    let mut n = Notify::new(Some("/run/user/1000"));
    assert_eq!(n.img, "/run/user/1000/podctl-popup.png");
    assert!(!n.unchanged(7));
    n.shown(3, 7);
    assert!(n.unchanged(7));
    assert!(!n.unchanged(8));
    assert_eq!(n.close(), Some(3));
    assert_eq!(n.close(), None);
}

#[test]
fn small_helpers() {
    assert_eq!(mode_label(Mode::NoiseCancellation), "Noise Cancellation");
    assert_eq!(ramp(Pod { level: Some(50), charging: false }), Tier::Good);
    assert_eq!(ramp(Pod { level: Some(19), charging: false }), Tier::Bad);
    assert_eq!(ramp(Pod { level: Some(19), charging: true }), Tier::Accent);
    assert_eq!(ramp(Pod::default()), Tier::Muted);
    assert!(theme_is_light("LIGHT"));
    assert!(!theme_is_light("dark"));
    let args = vec!["--theme".to_string(), "light".to_string(), "--dump".to_string()];
    assert_eq!(flag(&args, "--theme"), Some("light"));
    assert_eq!(flag(&args, "--dump"), None);
    assert!(is_shown(Some(10), 9));
    assert!(!is_shown(Some(10), 10));
    let (mut p, mut u) = (Some(1), None);
    show_now(&mut p, &mut u, 100, 50);
    assert_eq!((p, u), (None, Some(150)));
}
