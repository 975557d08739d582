use podctl::cli::{
    parse_on_off, parse_press_side, parse_verb, pop_flag, reboot_code, require_arg,
    response_code, route, CliError, Route,
};
use podctl::ipc::{PressSide, Request, Response};
use podctl::model::{ConvAwareness, MicSelection, Mode, PressAction, Profile, SpatialAudio};

fn args(v: &[&str]) -> Vec<String> {
    v.iter().map(|s| s.to_string()).collect()
}

#[test]
fn plain_verbs_and_aliases() {
    assert!(matches!(parse_verb("s", &[]), Ok(Request::Status)));
    assert!(matches!(parse_verb("bat", &[]), Ok(Request::Battery)));
    assert!(matches!(parse_verb("dc", &[]), Ok(Request::Disconnect)));
    assert!(matches!(parse_verb("forget", &[]), Ok(Request::Unpair)));
    assert!(matches!(parse_verb("ls", &[]), Ok(Request::List)));
    assert!(matches!(parse_verb("default-sink", &[]), Ok(Request::MakeDefaultSink)));
    assert!(matches!(parse_verb("w", &[]), Ok(Request::Watch)));
}

#[test]
fn typed_arguments() {
    assert!(matches!(
        parse_verb("m", &args(&["ANC"])),
        Ok(Request::SetMode { mode: Mode::NoiseCancellation })
    ));
    assert!(matches!(
        parse_verb("conv", &args(&["yes"])),
        Ok(Request::SetConv { conv: ConvAwareness::On })
    ));
    assert!(matches!(
        parse_verb("spatial", &args(&["ht"])),
        Ok(Request::SetSpatial { mode: SpatialAudio::HeadTracked })
    ));
    assert!(matches!(
        parse_verb("mic", &args(&["l"])),
        Ok(Request::SetMic { mic: MicSelection::AlwaysLeft })
    ));
    assert!(matches!(
        parse_verb("p", &args(&["call"])),
        Ok(Request::SetProfile { profile: Profile::Headset })
    ));
    assert!(matches!(
        parse_verb("press", &args(&["Left", "siri"])),
        Ok(Request::SetPressAction { side: PressSide::Left, action: PressAction::Siri })
    ));
    match parse_verb("rename", &args(&["My Pods"])) {
        Ok(Request::Rename { name }) => assert_eq!(name, "My Pods"),
        _ => panic!("rename"),
    }
    match parse_verb("codec", &args(&["aac"])) {
        Ok(Request::SetCodec { codec }) => assert_eq!(codec, "aac"),
        _ => panic!("codec"),
    }
    assert!(matches!(
        parse_verb("latency", &args(&["-40"])),
        Ok(Request::SetLatencyOffset { ms: -40 })
    ));
    assert!(matches!(
        parse_verb("mute", &args(&[" OFF "])),
        Ok(Request::SetMuted { muted: false })
    ));
}

fn usage_msg(r: Result<Request, CliError>) -> String {
    match r {
        Err(e) => {
            assert_eq!(e.exit_code(), 64);
            e.msg
        }
        Ok(_) => panic!("expected a usage error"),
    }
}

#[test]
fn usage_errors_name_the_problem() {
    assert_eq!(
        usage_msg(parse_verb("mode", &[])),
        "'mode' needs an argument: off|anc|transparency|adaptive"
    );
    assert_eq!(usage_msg(parse_verb("m", &args(&["loud"]))), "'m': unknown mode 'loud'");
    assert_eq!(
        usage_msg(parse_verb("vol", &args(&["abc"]))),
        "'volume': expected 0..100, got 'abc'"
    );
    assert_eq!(usage_msg(parse_verb("v", &args(&["150"]))), "'volume': expected 0..100, got 150");
    assert_eq!(usage_msg(parse_verb("chime", &args(&["256"]))), "'chime': expected 0..100, got '256'");
    assert_eq!(
        usage_msg(parse_verb("anc-strength", &args(&["101"]))),
        "'auto-anc': expected 0..100, got 101"
    );
    assert_eq!(usage_msg(parse_verb("ear", &args(&["maybe"]))), "'ear': expected on|off, got 'maybe'");
    assert_eq!(
        usage_msg(parse_verb("press", &args(&["up"]))),
        "'press': side must be 'left' or 'right', got 'up'"
    );
    assert_eq!(
        usage_msg(parse_verb("press", &[])),
        "'press' needs <side> <action>, e.g. 'podctl press left mode-cycle'"
    );
    assert_eq!(
        usage_msg(parse_verb("press", &args(&["r"]))),
        "'press' needs an argument: mode-cycle|siri|none"
    );
    assert_eq!(
        usage_msg(parse_verb("latency", &args(&["3.5"]))),
        "'latency': expected integer ms, got '3.5'"
    );
    assert_eq!(
        usage_msg(parse_verb("frobnicate", &[])),
        "unknown command 'frobnicate'. run 'podctl help' for the full list."
    );
}

#[test]
fn argument_helpers() {
    assert_eq!(require_arg(&args(&["x"]), "v", "h").unwrap(), "x");
    assert_eq!(require_arg(&[], "v", "h").unwrap_err().msg, "'v' needs an argument: h");
    assert!(parse_on_off(&args(&["TRUE"]), "v").unwrap());
    assert!(!parse_on_off(&args(&["0"]), "v").unwrap());
    assert!(matches!(parse_press_side(Some("R")), Ok(PressSide::Right)));
    assert_eq!(parse_press_side(Some("UP")).unwrap_err().msg, "'press': side must be 'left' or 'right', got 'up'");
    let mut a = args(&["--json", "status", "--json"]);
    assert!(pop_flag(&mut a, "--json"));
    assert_eq!(a, args(&["status"]));
    assert!(!pop_flag(&mut a, "--json"));
    assert_eq!(CliError::unavailable("x".to_string()).exit_code(), 69);
    assert_eq!(CliError::oserr("x".to_string()).exit_code(), 71);
    assert_eq!(CliError::dataerr("x".to_string()).code, 65);
}

#[test]
fn routing() {
    assert_eq!(route(&args(&[])).unwrap(), Route::Help);
    assert_eq!(route(&args(&["-V"])).unwrap(), Route::Version);
    assert_eq!(route(&args(&["debug", "--no-redact"])).unwrap(), Route::Debug { no_redact: true });
    assert_eq!(
        route(&args(&["debug", "emit-case-lid", "close"])).unwrap(),
        Route::DebugCaseLid(false)
    );
    assert_eq!(
        route(&args(&["debug", "emit-case-lid"])).unwrap_err().msg,
        "debug emit-case-lid: expected `open` or `close`"
    );
    assert_eq!(route(&args(&["tray", "--help"])).unwrap(), Route::Tray);
    assert_eq!(route(&args(&["popup", "-h"])).unwrap(), Route::VerbHelp);
    assert_eq!(route(&args(&["popup"])).unwrap(), Route::Popup);
    assert_eq!(route(&args(&["w"])).unwrap(), Route::Watch);
    assert_eq!(route(&args(&["mode", "anc"])).unwrap(), Route::Verb);
    assert_eq!(route(&args(&["mode", "--help"])).unwrap(), Route::VerbHelp);
}

#[test]
fn exit_codes() {
    assert_eq!(response_code(&Response::Done, false), 0);
    assert_eq!(response_code(&Response::Error("x".to_string()), false), 69);
    assert_eq!(response_code(&Response::Error("x".to_string()), true), 69);
    assert_eq!(response_code(&Response::Event(podctl::model::Event::Disconnected), false), 70);
    assert_eq!(response_code(&Response::Event(podctl::model::Event::Disconnected), true), 0);
    assert_eq!(reboot_code(0, false), 69);
    assert_eq!(reboot_code(2, true), 70);
    assert_eq!(reboot_code(3, false), 0);
}
