use podctl::audio::{CardInfo, SinkInfo};
use podctl::diag::{
    debug_report, os_name, redact_mac, redact_name, redact_node, redact_path, version_line,
    yesno, DebugFacts,
};

#[test]
fn masking() {
    assert_eq!(redact_mac("AA:BB:CC:DD:EE:FF", false), "AA:BB:CC:**:**:**");
    assert_eq!(redact_mac("AA:BB", false), "<mac>");
    assert_eq!(redact_mac("AA:BB", true), "AA:BB");
    assert_eq!(redact_name("airpods pro 2", false), "airpods pro 2");
    assert_eq!(redact_name("Kai's buds", false), "<custom name redacted>");
    assert_eq!(
        redact_node("bluez_output.AA_BB_CC_DD_EE_FF.1", false),
        "bluez_output.AA_BB_CC_**_**_**.1"
    );
    assert_eq!(
        redact_node("bluez_card.AA_BB_CC_DD_EE_FF", false),
        "bluez_card.AA_BB_CC_**_**_**"
    );
    assert_eq!(redact_node("alsa_output.pci", false), "alsa_output.pci");
    assert_eq!(redact_node("bluez_card.AA_BB", false), "bluez_card.AA_BB");
    assert_eq!(
        redact_path("/home/u/.run/podctl.sock", Some("/home/u"), false),
        "~/.run/podctl.sock"
    );
    assert_eq!(
        redact_path("/run/user/1000/podctl.sock", Some("/home/u"), false),
        "/run/user/<uid>/podctl.sock"
    );
    assert_eq!(redact_path("/run/user/1000", None, false), "/run/user/<uid>");
    assert_eq!(yesno(false), "no");
}

#[test]
fn system_text() {
    assert_eq!(
        os_name(Some("NAME=Arch\nPRETTY_NAME=\"Arch Linux\"\n")),
        "Arch Linux"
    );
    assert_eq!(os_name(Some("NAME=x")), "?");
    assert_eq!(os_name(None), "?");
    assert_eq!(version_line("pactl 16.1\nCompiled with libpulse 16.1\n").as_deref(), Some("pactl 16.1"));
    assert_eq!(version_line("\n"), None);
}

fn facts() -> DebugFacts {
    DebugFacts {
        version: "0.1.1".to_string(),
        debug_build: false,
        os: "Arch Linux".to_string(),
        kernel: "6.9".to_string(),
        arch: "x86_64".to_string(),
        desktop: None,
        session: Some("wayland".to_string()),
        pactl: "pactl 16.1".to_string(),
        wpctl: "(not installed)".to_string(),
        bluetoothctl: "5.72".to_string(),
        bluez_daemon: "active".to_string(),
        socket: "/run/user/1000/podctl.sock".to_string(),
        home: Some("/home/u".to_string()),
        socket_exists: true,
        reachable: false,
        device: None,
        paired_count: 0,
        sink: Some(SinkInfo {
            name: "bluez_output.AA_BB_CC_DD_EE_FF.1".to_string(),
            address: "AA:BB:CC:DD:EE:FF".to_string(),
            id: 1,
            is_default: true,
        }),
        card: Some(CardInfo {
            name: "bluez_card.AA_BB_CC_DD_EE_FF".to_string(),
            address: "AA:BB:CC:DD:EE:FF".to_string(),
            active_profile: "a2dp-sink".to_string(),
            profiles: vec!["a2dp-sink".to_string(), "a2dp-sink-sbc".to_string()],
            codec: Some("aac".to_string()),
        }),
        volume: Some(40),
        muted: false,
        runtime_dir_set: true,
        config_home_set: false,
        rust_log: None,
    }
}

#[test]
fn report_sections() {
    let r = debug_report(&facts(), false);
    assert_eq!(r[0], "=== podctl debug report ===");
    assert_eq!(r[1], "redacted: yes");
    assert_eq!(r[2], "");
    assert_eq!(r[3], "");
    assert_eq!(r[4], "[podctl]");
    assert!(r.contains(&"  desktop       ?".to_string()));
    assert!(r.contains(&"  socket        /run/user/<uid>/podctl.sock".to_string()));
    assert!(r.contains(&"  (no paired AirPods detected)".to_string()));
    assert!(r.contains(&"  paired count  0".to_string()));
    assert!(r.contains(&"  sink          bluez_output.AA_BB_CC_**_**_**.1".to_string()));
    assert!(r.contains(&"  codecs        aac, sbc".to_string()));
    assert!(r.contains(&"  volume        40% (muted: no)".to_string()));
    assert_eq!(r.last().unwrap(), "  RUST_LOG                 (unset)");
    let open = debug_report(&facts(), true);
    assert_eq!(open[1], "redacted: no (LOCAL ONLY, do not paste)");
    assert!(open.contains(&"  sink          bluez_output.AA_BB_CC_DD_EE_FF.1".to_string()));
}
