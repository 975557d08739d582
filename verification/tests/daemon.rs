use podctl::aap::{setting, Frame};
use podctl::bluez::DeviceSummary;
use podctl::caps::Model;
use podctl::daemon::{
    aap_step, apply_frame, clear_link_state, complete_aap, complete_audio, complete_bluez, handle,
    list_reply, merge_refresh, update_case_lid, pair_target, short_mac, snapshot_now, Action, AapFollowUp,
    AapStep, AudioJob, BluezJob, LinkTrack,
};
use podctl::ipc::{Request, Response};
use podctl::model::{
    AudioState, ConvAwareness, DeviceState, EarStatus, Event, MicSelection, Mode,
};

fn pro2_state() -> DeviceState {
    let mut s = DeviceState::default();
    s.capabilities = Model::Pro2.capabilities();
    s.address = Some("AA:BB:CC:DD:EE:FF".to_string());
    s.connected = true;
    s
}

#[test]
fn battery_frame_updates_levels_and_lid() {
    let mut s = DeviceState::default();
    let f = Frame::new(
        0x04,
        0,
        vec![0x03, 0x02, 0x01, 0x64, 0x02, 0x01, 0x04, 0x01, 0x63, 0x01, 0x01, 0x08, 0x01, 0x11, 0x02, 0x01],
    );
    let ev = apply_frame(&mut s, &f, 1000);
    assert_eq!(s.battery.right, Some(100));
    assert_eq!(s.battery.left, Some(99));
    assert!(s.battery.left_charging);
    assert_eq!(s.battery.case, Some(17));
    assert_eq!(s.case_lid_open, Some(true));
    assert_eq!(s.updated_at, 1000);
    assert_eq!(ev.len(), 2);
    assert!(matches!(ev[1], Event::CaseLid { open: true }));
    let again = apply_frame(&mut s, &f, 1001);
    assert_eq!(again.len(), 1);
}

#[test]
fn repeated_setting_is_quiet() {
    let mut s = pro2_state();
    let f = Frame::new(0x09, 0, vec![setting::NOISE_CONTROL, 0x03, 0, 0, 0]);
    let ev = apply_frame(&mut s, &f, 5);
    assert!(matches!(ev[..], [Event::Mode(Mode::Transparency)]));
    assert_eq!(s.settings.mode, Some(Mode::Transparency));
    let ev = apply_frame(&mut s, &f, 6);
    assert!(ev.is_empty());
    assert_eq!(s.updated_at, 5);
    let ear = Frame::new(0x06, 0, vec![0x00, 0x01]);
    apply_frame(&mut s, &ear, 7);
    assert_eq!(s.in_ear.primary, EarStatus::InEar);
    assert_eq!(s.in_ear.secondary, EarStatus::OutOfEar);
}

#[test]
fn requests_are_gated_on_capabilities() {
    let mut s = DeviceState::default();
    match handle(&mut s, &Request::SetMode { mode: Mode::NoiseCancellation }) {
        Action::Reply(Response::Error(m)) => {
            assert_eq!(m, "anc is not supported on AirPods (unknown model)")
        }
        _ => panic!("gate"),
    }
    let mut s = pro2_state();
    match handle(&mut s, &Request::SetMode { mode: Mode::NoiseCancellation }) {
        Action::SendAap(bytes, AapFollowUp::AwaitEcho) => {
            assert_eq!(bytes, vec![0x04, 0x00, 0x04, 0x00, 0x09, 0x00, 0x0D, 0x02, 0, 0, 0])
        }
        _ => panic!("send"),
    }
    match handle(&mut s, &Request::SetSpatial { mode: podctl::model::SpatialAudio::Fixed }) {
        Action::Reply(Response::Error(m)) => assert_eq!(
            m,
            "not implemented for this device — no verified AAP packet for this setting yet"
        ),
        _ => panic!("not implemented"),
    }
    assert!(matches!(handle(&mut s, &Request::Ping), Action::Reply(Response::Pong)));
    match handle(&mut s, &Request::Rename { name: "   ".to_string() }) {
        Action::Reply(Response::Error(m)) => assert_eq!(m, "name cannot be empty"),
        _ => panic!("rename"),
    }
    match handle(&mut s, &Request::Rename { name: "x".repeat(65) }) {
        Action::Reply(Response::Error(m)) => assert_eq!(m, "name too long (max 64 bytes UTF-8)"),
        _ => panic!("rename"),
    }
    assert!(matches!(
        handle(&mut s, &Request::Connect),
        Action::Bluez(BluezJob::Connect(_))
    ));
    handle(&mut s, &Request::DebugEmitCaseLid { open: false });
    assert_eq!(s.case_lid_open, Some(false));
}

#[test]
fn completions_update_the_cache() {
    let mut s = pro2_state();
    let (r, ev) = complete_aap(&mut s, AapFollowUp::Mic(MicSelection::AlwaysLeft), Ok(()), 9);
    assert!(matches!(r, Response::Done));
    assert!(matches!(ev[..], [Event::SettingsChanged]));
    assert_eq!(s.settings.mic_selection, Some(MicSelection::AlwaysLeft));
    let (r, ev) = complete_aap(&mut s, AapFollowUp::Conv(ConvAwareness::On), Err("AAP socket not connected".to_string()), 10);
    assert!(matches!(r, Response::Error(_)));
    assert!(ev.is_empty());
    assert_eq!(s.settings.conv_awareness, None);
    let (r, ev) = complete_bluez(&mut s, &BluezJob::Disconnect("AA".to_string()), Ok(()), 11);
    assert!(matches!(r, Response::Done));
    assert!(!s.connected);
    assert!(matches!(ev[..], [Event::Disconnected]));
    let (_, _) = complete_bluez(&mut s, &BluezJob::SetAlias("AA".to_string(), "Mine".to_string()), Ok(()), 12);
    assert_eq!(s.name.as_deref(), Some("Mine"));
    assert_eq!(s.settings.custom_name.as_deref(), Some("Mine"));
    let r = complete_audio(&mut s, &AudioJob::Volume(30), Ok(()), 13);
    assert!(matches!(r, Response::Done));
    assert_eq!(s.audio.volume_percent, Some(30));
    complete_bluez(&mut s, &BluezJob::Unpair("AA".to_string()), Ok(()), 14);
    assert_eq!(s.address, None);
    assert_eq!(s.updated_at, 14);
    assert!(matches!(list_reply(Err("boom".to_string())), Response::Error(_)));
}

fn summary(connected: bool) -> DeviceSummary {
    DeviceSummary {
        address: "AA:BB:CC:DD:EE:FF".to_string(),
        name: "Pods".to_string(),
        connected,
        trusted: true,
        paired: true,
        modalias: Some("bluetooth:v004Cp2014d0100".to_string()),
        icon: None,
    }
}

#[test]
fn refresh_announces_edges_once_and_keeps_the_model() {
    let mut s = DeviceState::default();
    s.battery.left = Some(50);
    let mut t = LinkTrack::new();
    let snap = snapshot_now(Some(&summary(true)), Some(-40), AudioState::default(), 100);
    assert_eq!(snap.capabilities.model, Model::Pro2);
    let ev = merge_refresh(&mut s, snap, &mut t, 100);
    assert!(matches!(&ev[..], [Event::Connected { name, address }] if name == "Pods" && address == "AA:BB:CC:DD:EE:FF"));
    assert_eq!(s.battery.left, Some(50));
    let snap = snapshot_now(Some(&summary(true)), None, AudioState::default(), 103);
    assert!(merge_refresh(&mut s, snap, &mut t, 103).is_empty());
    let empty = snapshot_now(None, None, AudioState::default(), 106);
    let ev = merge_refresh(&mut s, empty, &mut t, 106);
    assert!(matches!(ev[..], [Event::Disconnected]));
    assert_eq!(s.capabilities.model, Model::Pro2);
    assert!(t.prev_addr.is_none());
}

#[test]
fn link_starts_and_stops_with_the_connection() {
    let addr = Some("AA".to_string());
    assert!(matches!(aap_step(false, &addr, true), AapStep::Start(a) if a == "AA"));
    assert!(matches!(aap_step(true, &addr, true), AapStep::Keep));
    assert!(matches!(aap_step(true, &addr, false), AapStep::Stop));
    assert!(matches!(aap_step(false, &None, true), AapStep::Keep));
    let mut s = pro2_state();
    s.battery.left = Some(20);
    s.in_ear.primary = EarStatus::InEar;
    clear_link_state(&mut s, 77);
    assert_eq!(s.battery.left, None);
    assert_eq!(s.in_ear.primary, EarStatus::Unknown);
    assert_eq!(s.updated_at, 77);
}

#[test]
fn pair_target_and_short_mac() {
    let mut a = summary(false);
    assert_eq!(
        pair_target(&vec![a.clone()]).unwrap_err(),
        "no new AirPods spotted — open the case until the LED blinks white."
    );
    a.paired = false;
    assert_eq!(pair_target(&vec![summary(false), a]).unwrap(), "AA:BB:CC:DD:EE:FF");
    assert_eq!(short_mac("AA:BB:CC:DD:EE:FF"), "AABBCC");
    assert_eq!(short_mac("A:B"), "AB");
}

#[test]
fn lid_edge_is_reported_once() {
    let mut s = DeviceState::default();
    assert_eq!(update_case_lid(&mut s, true, 10), Some(true));
    assert_eq!(s.case_lid_open, Some(true));
    assert_eq!(s.updated_at, 10);
    assert_eq!(update_case_lid(&mut s, true, 20), None);
    assert_eq!(s.updated_at, 10);
    assert_eq!(update_case_lid(&mut s, false, 30), Some(false));
    assert_eq!(s.case_lid_open, Some(false));
    assert_eq!(s.updated_at, 30);
}
