use podctl::audio::{
    available_codecs, default_sink_name, latency_outcome, extract_address, extract_codec, logical_profile,
    parse_card_block, parse_sink_mute, parse_sink_volume_percent, pick_profile, primary_card,
    primary_sink, set_codec, set_default, set_latency_offset, set_muted, set_profile, set_volume,
    snapshot, CardInfo, SinkInfo,
};
use podctl::model::Profile;

fn chars(s: &str) -> Vec<char> {
    s.chars().collect()
}

fn card(profiles: &[&str], active: &str) -> CardInfo {
    CardInfo {
        name: "bluez_card.AA_BB_CC_DD_EE_FF".to_string(),
        address: "AA:BB:CC:DD:EE:FF".to_string(),
        active_profile: active.to_string(),
        profiles: profiles.iter().map(|s| s.to_string()).collect(),
        codec: extract_codec(&chars(active)),
    }
}

#[test]
fn addresses_and_codecs_from_names() {
    assert_eq!(
        extract_address(&chars("bluez_output.AA_BB_CC_DD_EE_FF.1")).as_deref(),
        Some("AA:BB:CC:DD:EE:FF")
    );
    assert_eq!(
        extract_address(&chars("bluez_card.AA_BB_CC_DD_EE_FF")).as_deref(),
        Some("AA:BB:CC:DD:EE:FF")
    );
    assert_eq!(extract_address(&chars("alsa_output.pci")), None);
    assert_eq!(extract_address(&chars("bluez_output.AA_BB.1")), None);
    assert_eq!(extract_codec(&chars("a2dp-sink")).as_deref(), Some("aac"));
    assert_eq!(extract_codec(&chars("a2dp-sink-ldac")).as_deref(), Some("ldac"));
    assert_eq!(extract_codec(&chars("headset-head-unit")), None);
    assert_eq!(logical_profile(&chars("")), Some(Profile::Off));
    assert_eq!(logical_profile(&chars("a2dp-sink-sbc")), Some(Profile::HighQuality));
    assert_eq!(logical_profile(&chars("headset-head-unit-msbc")), Some(Profile::Headset));
    assert_eq!(logical_profile(&chars("weird")), None);
}

#[test]
fn sink_volume_and_mute() {
    assert_eq!(
        parse_sink_volume_percent(Some("Volume: front-left: 32768 /  50% / -18.06 dB")),
        Some(50)
    );
    assert_eq!(parse_sink_volume_percent(Some("Volume: x / 200% / 1 dB")), Some(150));
    assert_eq!(parse_sink_volume_percent(None), None);
    assert!(parse_sink_mute(Some("Mute: yes")));
    assert!(!parse_sink_mute(Some("Mute: no")));
    assert!(!parse_sink_mute(None));
    assert_eq!(default_sink_name("  bluez_output.X.1 \n"), "bluez_output.X.1");
}

#[test]
fn primary_sink_and_card() {
    let listing = "1\talsa_output.pci\tmodule\n7\tbluez_output.AA_BB_CC_DD_EE_FF.1\tmodule-bluez\n";
    let sink = primary_sink(listing, Some("bluez_output.AA_BB_CC_DD_EE_FF.1")).unwrap();
    assert_eq!(sink.id, 7);
    assert_eq!(sink.address, "AA:BB:CC:DD:EE:FF");
    assert!(sink.is_default);
    assert!(primary_sink("x\tbluez_output.A", None).is_none());
    let cards = "Card #1\n\tName: alsa_card.pci\nCard #2\n\tName: bluez_card.AA_BB_CC_DD_EE_FF\n\tProfiles:\n\t\ta2dp-sink: High Fidelity\n\t\ta2dp-sink-sbc: SBC\n\t\theadset-head-unit: Headset\n\tActive Profile: a2dp-sink-sbc\n";
    let c = primary_card(&sink, cards).unwrap();
    assert_eq!(c.name, "bluez_card.AA_BB_CC_DD_EE_FF");
    assert_eq!(c.active_profile, "a2dp-sink-sbc");
    assert_eq!(c.profiles, vec!["a2dp-sink", "a2dp-sink-sbc", "headset-head-unit"]);
    assert_eq!(c.codec.as_deref(), Some("sbc"));
    assert!(parse_card_block(cards, "bluez_card.00_00").is_none());
}

#[test]
fn codecs_are_sorted_and_unique() {
    let c = card(&["a2dp-sink-sbc", "a2dp-sink", "a2dp-sink-aac", "off", "a2dp-sink-ldac"], "off");
    assert_eq!(available_codecs(&c), vec!["aac", "ldac", "sbc"]);
}

#[test]
fn profile_and_codec_commands() {
    let c = card(&["a2dp-sink-sbc", "headset-head-unit-msbc", "off"], "off");
    assert_eq!(pick_profile(&c, Profile::HighQuality).unwrap(), "a2dp-sink-sbc");
    assert_eq!(
        set_profile(&c, Profile::Headset).unwrap(),
        vec!["set-card-profile", "bluez_card.AA_BB_CC_DD_EE_FF", "headset-head-unit-msbc"]
    );
    let none = card(&["off"], "off");
    assert_eq!(
        pick_profile(&none, Profile::Headset).unwrap_err(),
        "no matching profile for 'headset' (available: off)"
    );
    assert_eq!(
        set_codec(&c, " SBC ").unwrap(),
        vec!["set-card-profile", "bluez_card.AA_BB_CC_DD_EE_FF", "a2dp-sink-sbc"]
    );
    assert_eq!(
        set_codec(&c, "ldac").unwrap_err(),
        "codec 'ldac' not available (try one of: sbc)"
    );
    let cmds = set_latency_offset(&c, -40);
    assert_eq!(cmds.len(), 2);
    assert_eq!(cmds[0][3], "-40000");
}

#[test]
fn sink_commands_and_snapshot() {
    let s = SinkInfo {
        name: "bluez_output.AA_BB_CC_DD_EE_FF.1".to_string(),
        address: "AA:BB:CC:DD:EE:FF".to_string(),
        id: 3,
        is_default: true,
    };
    assert_eq!(set_volume(&s, 40), vec!["set-sink-volume", "bluez_output.AA_BB_CC_DD_EE_FF.1", "40%"]);
    assert_eq!(set_muted(&s, true)[2], "1");
    assert_eq!(set_default(&s), vec!["set-default-sink", "bluez_output.AA_BB_CC_DD_EE_FF.1"]);
    let c = card(&["a2dp-sink", "a2dp-sink-sbc"], "a2dp-sink");
    let a = snapshot(Some(&s), Some(&c), Some("Volume: 20%"), Some("Mute: no"));
    assert_eq!(a.volume_percent, Some(20));
    assert_eq!(a.profile, Some(Profile::HighQuality));
    assert_eq!(a.codec.as_deref(), Some("aac"));
    assert_eq!(a.available_codecs, vec!["aac", "sbc"]);
    assert!(a.is_default_sink);
    let empty = snapshot(None, None, None, None);
    assert_eq!(empty.volume_percent, None);
    assert!(empty.available_codecs.is_empty());
}

#[test]
fn latency_failures_are_ignored() {
    let results: Vec<Result<(), String>> = vec![Err("no such port".to_string()), Ok(())];
    assert_eq!(latency_outcome(&results), Ok(()));
    let both: Vec<Result<(), String>> = vec![Err("a".to_string()), Err("b".to_string())];
    assert_eq!(latency_outcome(&both), Ok(()));
}
