use podctl::ipc::{socket_path, Request, Response};
use podctl::model::{
    ConvAwareness, DeviceState, EarStatus, InEar, MicSelection, Mode, PressAction, Profile,
    SpatialAudio,
};

#[test]
fn names_parse_back() {
    for m in [Mode::Off, Mode::NoiseCancellation, Mode::Transparency, Mode::Adaptive] {
        assert_eq!(Mode::parse(m.as_str()), Ok(m));
    }
    for p in [Profile::HighQuality, Profile::Headset, Profile::Off] {
        assert_eq!(Profile::parse(p.as_str()), Ok(p));
    }
    for s in [SpatialAudio::Off, SpatialAudio::Fixed, SpatialAudio::HeadTracked] {
        assert_eq!(SpatialAudio::parse(s.as_str()), Ok(s));
    }
    for m in [MicSelection::Auto, MicSelection::AlwaysLeft, MicSelection::AlwaysRight] {
        assert_eq!(MicSelection::parse(m.as_str()), Ok(m));
    }
    for a in [PressAction::ModeCycle, PressAction::Siri, PressAction::NoAction] {
        assert_eq!(PressAction::parse(a.as_str()), Ok(a));
    }
    assert_eq!(Mode::parse(" Noise "), Ok(Mode::NoiseCancellation));
    assert_eq!(Mode::parse("loud"), Err("unknown mode 'loud'".to_string()));
    assert_eq!(ConvAwareness::parse("0"), Ok(ConvAwareness::Off));
    assert_eq!(
        ConvAwareness::parse("maybe"),
        Err("expected 'on' or 'off', got 'maybe'".to_string())
    );
    assert_eq!("hfp".parse::<Profile>(), Ok(Profile::Headset));
}

#[test]
fn in_ear_counts_and_defaults() {
    let e = InEar {
        primary: EarStatus::InEar,
        secondary: EarStatus::OutOfEar,
    };
    assert!(e.any_in_ear());
    assert_eq!(e.count_in_ear(), 1);
    assert_eq!(EarStatus::InCase.as_str(), "in case");
    let s = DeviceState::default();
    assert!(!s.connected);
    assert_eq!(s.updated_at, 0);
    assert!(matches!(Response::err("x"), Response::Error(m) if m == "x"));
    assert!(Response::err("x").is_err());
    assert!(!Response::ok_done().is_err());
    let _ = Request::Status;
}

#[test]
fn socket_location() {
    assert_eq!(socket_path(Some("/run/user/1000"), 1000), "/run/user/1000/podctl.sock");
    assert_eq!(socket_path(Some("/run/user/1000/"), 1000), "/run/user/1000/podctl.sock");
    assert_eq!(socket_path(None, 1000), "/tmp/podctl-1000.sock");
}
