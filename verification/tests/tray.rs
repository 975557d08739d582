use std::collections::HashMap;

use podctl::caps::{Capabilities, Model};
use podctl::ipc::Request;
use podctl::model::{Battery, ConvAwareness, DeviceState, Event, Mode};
use podctl::tray::{
    apply_event, apply_status, children_of, click, config_from, config_path, config_summary,
    format_part, item_props, mark_disconnected, needs_status, next_backoff, parse_flat,
    properties_snapshot, systemctl_code, tray_verb, watcher_from, Config, ItemLabel, LeftClick,
    MenuClick, Notifier, Toggle, TrayState, TrayVerb, MENU_CONV, MENU_MODE, MENU_MODE_OFF,
    MENU_QUIT, MENU_ROOT,
};

#[test]
fn defaults_when_missing() {
    let kv: HashMap<String, String> = HashMap::new();
    let _ = kv;
    let c = Config::default();
    assert_eq!(c.left_click, LeftClick::Popup);
    assert_eq!(c.low_battery_threshold, 20);
    assert_eq!(c.notify_threshold, 10);
}

#[test]
fn parses_each_field() {
    let text = "\
left_click = \"toggle-anc-tr\"
low_battery_threshold = 25
notify_threshold = 5
# comment
";
    let kv = parse_flat(text);
    assert_eq!(kv.get("left_click").unwrap(), "toggle-anc-tr");
    assert_eq!(kv.get("low_battery_threshold").unwrap(), "25");
    assert_eq!(kv.get("notify_threshold").unwrap(), "5");
}

#[test]
fn skips_garbage() {
    let text = "no equals\n# comment only\n\nkey=value";
    let kv = parse_flat(text);
    assert_eq!(kv.len(), 1);
    assert_eq!(kv.get("key").unwrap(), "value");
}

#[test]
fn left_click_alias() {
    assert_eq!(LeftClick::parse("toggle"), Some(LeftClick::ToggleAncTr));
    assert_eq!(LeftClick::parse("popup"), Some(LeftClick::Popup));
    assert_eq!(LeftClick::parse("bogus"), None);
}

#[test]
fn later_line_for_a_key_wins() {
    let kv = parse_flat("a = 1\nb = 'x'\na = \"2\" # again\n");
    assert_eq!(kv.len(), 2);
    assert_eq!(kv.get("a").unwrap(), "2");
    assert_eq!(kv.get("b").unwrap(), "x");
    assert!(kv.get("c").is_none());
}

#[test]
fn config_keeps_defaults_for_bad_values() {
    let kv = parse_flat("left_click = menu\nlow_battery_threshold = 300\nnotify_threshold = +7");
    let c = config_from(&kv);
    assert_eq!(c.left_click, LeftClick::Menu);
    assert_eq!(c.low_battery_threshold, 20);
    assert_eq!(c.notify_threshold, 7);
    let kv = parse_flat("left_click = Menu");
    assert_eq!(config_from(&kv).left_click, LeftClick::Popup);
}

#[test]
fn config_path_follows_xdg() {
    assert_eq!(config_path(Some("/home/u"), None), "/home/u/.config/podctl/tray.toml");
    assert_eq!(config_path(Some("/home/u"), Some("/cfg")), "/cfg/podctl/tray.toml");
    assert_eq!(config_path(None, None), "/tmp/.config/podctl/tray.toml");
    assert_eq!(config_path(None, Some("/cfg/")), "/cfg/podctl/tray.toml");
}

fn connected_state(left: Option<u8>, right: Option<u8>) -> TrayState {
    let mut s = TrayState::new(20);
    s.connected = true;
    s.battery = Battery {
        left,
        right,
        ..Battery::default()
    };
    s
}

#[test]
fn tooltip_lists_known_levels() {
    let mut s = connected_state(Some(82), Some(79));
    s.battery.case = Some(64);
    s.battery.case_charging = true;
    s.model = Some("AirPods Pro (2nd gen)".to_string());
    let (title, body) = s.tooltip();
    assert_eq!(title, "AirPods Pro (2nd gen)");
    assert_eq!(body, "L 82% · R 79% · Case 64% ⚡");
    let none = connected_state(None, None);
    assert_eq!(none.tooltip(), ("AirPods".to_string(), "Connected".to_string()));
    let mut off = TrayState::new(20);
    off.name = Some("Pods".to_string());
    assert_eq!(off.tooltip(), ("Pods".to_string(), "Not connected".to_string()));
    assert_eq!(format_part("L", 5, false), "L 5%");
}

#[test]
fn status_needs_attention_only_when_low_and_not_charging() {
    let s = connected_state(Some(15), Some(60));
    assert_eq!(s.battery_min_buds(), Some(15));
    assert_eq!(s.status(), "NeedsAttention");
    let mut c = s.clone();
    c.battery.case_charging = true;
    assert_eq!(c.status(), "Active");
    assert_eq!(connected_state(Some(20), None).status(), "Active");
    assert_eq!(s.icon_name(), "audio-headphones");
    assert_eq!(TrayState::new(20).icon_name(), "audio-headphones-symbolic");
}

#[test]
fn notifier_fires_once_until_rearmed() {
    let mut n = Notifier::new(10);
    let low = connected_state(Some(8), Some(50));
    assert_eq!(n.observe(&low), Some(8));
    assert_eq!(n.observe(&low), None);
    let mid = connected_state(Some(12), Some(50));
    assert_eq!(n.observe(&mid), None);
    assert_eq!(n.observe(&low), None);
    let high = connected_state(Some(15), Some(50));
    assert_eq!(n.observe(&high), None);
    assert_eq!(n.observe(&low), Some(8));
    let mut charging = low.clone();
    charging.battery.left_charging = true;
    assert_eq!(n.observe(&charging), None);
    assert_eq!(n.observe(&low), Some(8));
}

#[test]
fn events_update_the_mirror() {
    let mut s = TrayState::new(20);
    apply_event(
        &mut s,
        Event::Connected {
            name: "Pods".to_string(),
            address: "AA".to_string(),
        },
    );
    assert!(s.connected);
    assert_eq!(s.name.as_deref(), Some("Pods"));
    apply_event(&mut s, Event::Mode(Mode::Transparency));
    assert_eq!(s.mode, Some(Mode::Transparency));
    apply_event(&mut s, Event::Disconnected);
    assert!(!s.connected);
    assert_eq!(s.mode, None);
    assert!(needs_status(&Event::SettingsChanged));
    assert!(!needs_status(&Event::Disconnected));
    s.connected = true;
    s.battery.left = Some(3);
    mark_disconnected(&mut s);
    assert!(!s.connected);
    assert_eq!(s.battery.left, None);
}

#[test]
fn status_keeps_a_known_model() {
    let mut s = TrayState::new(20);
    let mut ds = DeviceState::default();
    ds.capabilities = Model::Pro2.capabilities();
    ds.connected = true;
    apply_status(&mut s, ds);
    assert_eq!(s.model.as_deref(), Some("AirPods Pro (2nd gen)"));
    let mut unknown = DeviceState::default();
    unknown.connected = true;
    apply_status(&mut s, unknown);
    assert_eq!(s.model.as_deref(), Some("AirPods Pro (2nd gen)"));
    assert!(s.capabilities.has_anc);
}

#[test]
fn backoff_doubles_up_to_the_cap() {
    assert_eq!(next_backoff(500), 1000);
    assert_eq!(next_backoff(20_000), 30_000);
    assert_eq!(next_backoff(30_000), 30_000);
}

#[test]
fn menu_reflects_capabilities_and_mode() {
    let mut s = TrayState::new(20);
    s.capabilities = Capabilities::conservative(Model::Gen2);
    s.mode = Some(Mode::Off);
    let off = item_props(MENU_MODE_OFF, &s).unwrap();
    assert_eq!(off.label, Some(ItemLabel::Off));
    assert_eq!(off.toggle, Some(Toggle::Radio));
    assert_eq!(off.toggle_on, Some(true));
    assert_eq!(off.enabled, Some(false));
    s.capabilities = Model::Pro2.capabilities();
    assert_eq!(item_props(MENU_MODE_OFF, &s).unwrap().enabled, Some(true));
    assert!(item_props(99, &s).is_none());
    assert!(item_props(MENU_MODE, &s).unwrap().submenu);
    assert_eq!(properties_snapshot(&s).len(), 6);
    assert_eq!(children_of(MENU_ROOT), vec![1, 2, 3, 4, 5]);
    assert_eq!(children_of(MENU_MODE), vec![10, 11, 12, 13]);
    assert_eq!(ItemLabel::QuitTray.as_str(), "Quit tray");
}

#[test]
fn menu_clicks() {
    let mut s = TrayState::new(20);
    match click(MENU_CONV, "clicked", &s) {
        MenuClick::Send(Request::SetConv { conv }) => assert_eq!(conv, ConvAwareness::On),
        _ => panic!("conversation toggle"),
    }
    s.conv_awareness = Some(ConvAwareness::On);
    match click(MENU_CONV, "clicked", &s) {
        MenuClick::Send(Request::SetConv { conv }) => assert_eq!(conv, ConvAwareness::Off),
        _ => panic!("conversation toggle"),
    }
    assert!(matches!(click(MENU_QUIT, "clicked", &s), MenuClick::Quit));
    assert!(matches!(click(MENU_QUIT, "hovered", &s), MenuClick::Nothing));
    assert!(matches!(
        click(MENU_MODE_OFF, "clicked", &s),
        MenuClick::Send(Request::SetMode { mode: Mode::Off })
    ));
}

#[test]
fn tray_subcommands() {
    assert_eq!(tray_verb(&[]), TrayVerb::Status);
    assert_eq!(tray_verb(&["restart".to_string()]), TrayVerb::Restart);
    assert_eq!(tray_verb(&["-h".to_string()]), TrayVerb::Help);
    assert_eq!(tray_verb(&["nope".to_string()]), TrayVerb::Unknown);
    assert_eq!(systemctl_code(true, true), 0);
    assert_eq!(systemctl_code(true, false), 69);
    assert_eq!(systemctl_code(false, false), 71);
    assert!(watcher_from(true, "   boolean true\n"));
    assert!(!watcher_from(false, "boolean true"));
    let kv = parse_flat("low_battery_threshold = 30");
    assert_eq!(
        config_summary(&kv),
        "left_click=mode-cycle low_battery_threshold=30 notify_threshold=10"
    );
}
