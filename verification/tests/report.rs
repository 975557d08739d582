use podctl::caps::Model;
use podctl::ipc::Response;
use podctl::model::{
    Battery, DeviceState, EarStatus, Event, InEar, Mode, PairedDevice, PressKind, Side,
};
use podctl::report::{
    battery_line, event_line, format_in_ear, full_report, list_report, on_off, print_state,
    short_reply,
};

#[test]
fn battery_line_cells() {
    let b = Battery {
        left: Some(82),
        right: Some(7),
        case: None,
        left_charging: true,
        ..Battery::default()
    };
    assert_eq!(battery_line(&b, true), "battery   L  82% ⚡   R   7%     C  ---   ");
    assert_eq!(
        battery_line(&Battery::default(), false),
        "battery — no data (disconnected)"
    );
}

#[test]
fn disconnected_status() {
    let mut s = DeviceState::default();
    assert_eq!(full_report(&s, false, 0), vec!["disconnected"]);
    s.address = Some("AA:BB".to_string());
    s.name = Some("Pods".to_string());
    assert_eq!(full_report(&s, false, 0), vec!["disconnected", "  paired  AA:BB (Pods)"]);
    assert_eq!(print_state("b", &s, false, 0), vec!["battery — no data (disconnected)"]);
}

#[test]
fn connected_status_report() {
    let mut s = DeviceState::default();
    s.connected = true;
    s.capabilities = Model::Pro2.capabilities();
    s.address = Some("AA:BB".to_string());
    s.battery.left = Some(50);
    s.settings.mode = Some(Mode::Adaptive);
    s.bluetooth.paired = true;
    s.updated_at = 90;
    let lines = full_report(&s, false, 100);
    let expect = vec![
        "AirPods  —  AirPods Pro (2nd gen)",
        "  address       AA:BB",
        "",
        "battery   L  50%     R  ---      C  ---   ",
        "",
        "  in-ear        —",
        "",
        "  mode          adaptive",
        "",
        "  bluetooth",
        "    paired      on",
        "    trusted     off",
        "    auto-conn   off",
        "",
        "  updated       10s ago",
    ];
    assert_eq!(lines, expect);
}

#[test]
fn in_ear_wording() {
    let both = InEar {
        primary: EarStatus::InEar,
        secondary: EarStatus::InEar,
    };
    assert_eq!(format_in_ear(&both, false), "both in ear");
    let mixed = InEar {
        primary: EarStatus::InEar,
        secondary: EarStatus::InCase,
    };
    assert_eq!(format_in_ear(&mixed, false), "L in ear,  R in case");
    assert_eq!(format_in_ear(&mixed, true), "primary in ear,  secondary in case");
    assert_eq!(on_off(true), "on");
}

#[test]
fn list_table() {
    assert_eq!(list_report(&vec![]), vec!["no paired AirPods on this adapter."]);
    let d = PairedDevice {
        address: "AA:BB:CC:DD:EE:FF".to_string(),
        name: "Pods".to_string(),
        model: None,
        connected: true,
        trusted: false,
    };
    let t = list_report(&vec![d]);
    assert_eq!(t.len(), 3);
    assert_eq!(
        t[0],
        format!("{:<18}  {:<24}  {:<22}  {:<10}  trusted", "address", "name", "model", "state")
    );
    assert_eq!(t[1], "─".repeat(86));
    assert_eq!(
        t[2],
        format!("{:<18}  {:<24}  {:<22}  {:<10}  {}", "AA:BB:CC:DD:EE:FF", "Pods", "?", "connected", "no")
    );
}

#[test]
fn event_lines() {
    let b = Battery {
        left: Some(5),
        ..Battery::default()
    };
    assert_eq!(event_line(&Event::Battery(b), false).unwrap(), "battery       L 5%  R —  C —");
    assert_eq!(
        event_line(&Event::Press { side: Side::Right, kind: PressKind::Long }, false).unwrap(),
        "press         R long"
    );
    assert_eq!(
        event_line(
            &Event::Connected {
                name: "Pods".to_string(),
                address: "AA".to_string()
            },
            false
        )
        .unwrap(),
        "connected     Pods  (AA)"
    );
    assert!(event_line(&Event::ShowPopup, false).is_none());
    assert_eq!(short_reply(&Response::Pending("soon".to_string())).unwrap(), "ok (pending: soon)");
    assert!(short_reply(&Response::Error("x".to_string())).is_none());
}
