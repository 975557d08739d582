use podctl::bluez::{
    bt_state, connect, pair_outcome, select_airpods, trust_after, device_list, field, first_unpaired, info, pair, paired_airpods,
    paired_devices, pick_adapter, primary_airpods, rssi, set_alias, set_trusted, to_paired_device,
    unpair, DeviceSummary,
};
use podctl::caps::Model;

const INFO: &str = "Device AA:BB:CC:DD:EE:FF (public)\n\tName: Pods\n\tIcon: audio-headphones\n\tPaired: yes\n\tTrusted: no\n\tConnected: yes\n\tModalias: bluetooth:v004Cp2014d0100\n\tRSSI: -52\n";

fn dev(name: &str, connected: bool, modalias: Option<&str>) -> DeviceSummary {
    DeviceSummary {
        address: format!("AA:{name}"),
        name: name.to_string(),
        connected,
        trusted: false,
        paired: true,
        modalias: modalias.map(|s| s.to_string()),
        icon: Some("audio-headphones".to_string()),
    }
}

#[test]
fn info_output_is_read() {
    let d = info("AA:BB:CC:DD:EE:FF", INFO);
    assert_eq!(d.name, "Pods");
    assert!(d.connected && d.paired && !d.trusted);
    assert_eq!(d.model(), Model::Pro2);
    assert!(d.is_apple() && d.is_airpods());
    assert!(d.capabilities().has_anc);
    assert_eq!(rssi(Some(INFO)), Some(-52));
    assert_eq!(rssi(None), None);
    assert_eq!(field(INFO, "Icon:").as_deref(), Some("audio-headphones"));
    let b = bt_state(&d, Some(-52));
    assert!(b.paired && !b.auto_connect);
    let p = to_paired_device(&d);
    assert_eq!(p.model.as_deref(), Some("AirPods Pro (2nd gen)"));
    let unnamed = info("11:22", "Device 11:22\n");
    assert_eq!(unnamed.name, "11:22");
    assert!(!unnamed.is_apple());
}

#[test]
fn listing_order_is_connected_then_name() {
    let a = dev("beta", false, Some("bluetooth:v004Cp2014d0100"));
    let b = dev("alpha", false, Some("bluetooth:v004Cp2014d0100"));
    let c = dev("zulu", true, Some("bluetooth:v004Cp2014d0100"));
    let other = dev("mouse", true, Some("bluetooth:v046Dp1234d0001"));
    let mut other = other;
    other.icon = Some("input-mouse".to_string());
    let sorted = paired_airpods(vec![a, other, b, c]);
    let names: Vec<&str> = sorted.iter().map(|d| d.name.as_str()).collect();
    assert_eq!(names, vec!["zulu", "alpha", "beta"]);
    assert_eq!(primary_airpods(&sorted).unwrap().name, "zulu");
    assert_eq!(paired_devices(&sorted).len(), 3);
}

#[test]
fn devices_listing_and_commands() {
    assert_eq!(
        device_list("Device AA:BB Pods\nController 11:22 host\nDevice CC:DD Other thing\n"),
        vec!["AA:BB", "CC:DD"]
    );
    assert_eq!(connect("AA"), vec!["connect", "AA"]);
    assert_eq!(unpair("AA"), vec!["remove", "AA"]);
    assert_eq!(set_trusted("AA", false), vec!["untrust", "AA"]);
    assert_eq!(pair("AA"), vec![vec!["pair", "AA"], vec!["trust", "AA"]]);
    assert_eq!(
        set_alias("hci0", "AA:BB", "Mine")[3],
        "/org/bluez/hci0/dev_AA_BB"
    );
    assert_eq!(
        pick_adapter(Some(" hci1 "), &vec!["hci0".to_string()]).as_deref(),
        Some("hci1")
    );
    assert_eq!(
        pick_adapter(None, &vec!["rfkill".to_string(), "hci0:1".to_string(), "hci2".to_string()])
            .as_deref(),
        Some("hci2")
    );
    let mut found = vec![dev("a", false, None), dev("b", false, None)];
    found[1].paired = false;
    assert_eq!(first_unpaired(&found), Some(1));
    found[1].paired = true;
    assert_eq!(first_unpaired(&found), None);
}

#[test]
fn airpods_test_reads_the_code_only_when_needed() {
    // The product code straddles a multi-byte character.
    let bad = "bluetooth:v004Cp2\u{e9}\u{e9}d0100";
    let with_icon = dev("Pods", true, Some(bad));
    assert!(with_icon.is_airpods_decidable());
    assert!(with_icon.is_airpods());
    let mut no_icon = dev("Pods", true, Some(bad));
    no_icon.icon = None;
    assert!(!no_icon.is_airpods_decidable());
    let other = dev("Mouse", false, Some("bluetooth:v0001p2\u{e9}\u{e9}d0100"));
    assert!(other.is_airpods_decidable());
    assert!(!other.is_airpods());
    let kept = select_airpods(vec![other, with_icon]);
    assert_eq!(kept.len(), 1);
    assert_eq!(kept[0].name, "Pods");
}

#[test]
fn trust_follows_only_a_successful_pair() {
    let ok: Result<(), String> = Ok(());
    let failed: Result<(), String> = Err("pair failed".to_string());
    assert_eq!(
        trust_after("AA:BB", &ok),
        Some(vec!["trust".to_string(), "AA:BB".to_string()])
    );
    assert_eq!(trust_after("AA:BB", &failed), None);
    assert_eq!(pair_outcome(Ok(()), Some(Err("no trust".to_string()))), Ok(()));
    assert_eq!(pair_outcome(Ok(()), Some(Ok(()))), Ok(()));
    assert_eq!(
        pair_outcome(Err("pair failed".to_string()), None),
        Err("pair failed".to_string())
    );
}
