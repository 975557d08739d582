use podctl::aap::{
    battery_kind, battery_status, op, parse_battery, parse_ear, parse_in_ear, parse_press,
    parse_proximity_pair, set_conv_awareness, set_ear_detection, set_mic_mode, set_noise_control,
    setting, startup_frames, write_setting, Frame, SettingNotice,
};
use podctl::model::{EarStatus, PressKind, Side};

#[test]
fn frame_roundtrip() {
    let f = Frame::new(
        op::SETTINGS,
        0x00,
        vec![setting::NOISE_CONTROL, 0x02, 0, 0, 0],
    );
    let bytes = f.encode();
    assert_eq!(
        bytes,
        vec![
            0x04,
            0x00,
            0x04,
            0x00,
            0x09,
            0x00,
            setting::NOISE_CONTROL,
            0x02,
            0,
            0,
            0
        ]
    );
    let parsed = Frame::parse(&bytes).expect("parse roundtrip");
    assert_eq!(parsed.opcode, 0x09);
    assert_eq!(parsed.subop, 0x00);
    assert_eq!(parsed.payload, vec![setting::NOISE_CONTROL, 0x02, 0, 0, 0]);
}

#[test]
fn frame_parse_accepts_handshake_reply_magic() {
    let bytes = b"\x01\x00\x04\x00\x00\x00\x01\x00\x03\x00";
    let parsed = Frame::parse(bytes).expect("lenient on first magic byte");
    assert_eq!(parsed.opcode, 0x00);
}

#[test]
fn frame_parse_rejects_garbage() {
    assert!(Frame::parse(b"").is_none());
    assert!(Frame::parse(b"\xff\xff\xff").is_none());
    assert!(Frame::parse(b"\x04\x00\x05\x00\x00\x00").is_none());
}

#[test]
fn battery_decodes_example_from_doc() {
    let payload: &[u8] = &[
        0x03, 0x02, 0x01, 0x64, 0x02, 0x01, 0x04, 0x01, 0x63, 0x01, 0x01, 0x08, 0x01, 0x11,
        0x02, 0x01,
    ];
    let comps = parse_battery(payload);
    assert_eq!(comps.len(), 3);
    assert_eq!(comps[0].kind, battery_kind::RIGHT);
    assert_eq!(comps[0].level, 100);
    assert_eq!(comps[0].status, battery_status::DISCHARGING);
    assert_eq!(comps[1].kind, battery_kind::LEFT);
    assert_eq!(comps[1].level, 99);
    assert_eq!(comps[1].status, battery_status::CHARGING);
    assert_eq!(comps[2].kind, battery_kind::CASE);
    assert_eq!(comps[2].level, 17);
    assert_eq!(comps[2].status, battery_status::DISCHARGING);
}

#[test]
fn battery_handles_short_payloads() {
    assert!(parse_battery(&[]).is_empty());
    assert_eq!(parse_battery(&[3, 2, 1, 50, 2, 1]).len(), 1);
}

#[test]
fn in_ear_maps_all_three_statuses() {
    let in_ear = parse_in_ear(&[0x00, 0x02]).unwrap();
    assert_eq!(in_ear.primary, EarStatus::InEar);
    assert_eq!(in_ear.secondary, EarStatus::InCase);

    let in_ear = parse_in_ear(&[0x01, 0x00]).unwrap();
    assert_eq!(in_ear.primary, EarStatus::OutOfEar);
    assert_eq!(in_ear.secondary, EarStatus::InEar);

    let in_ear = parse_in_ear(&[0xFF, 0x00]).unwrap();
    assert_eq!(in_ear.primary, EarStatus::Unknown);
    assert_eq!(in_ear.secondary, EarStatus::InEar);

    assert!(parse_in_ear(&[0x00]).is_none());
}

#[test]
fn proximity_pair_extracts_model_code() {
    let data: &[u8] = &[0x07, 0x19, 0x01, 0x24, 0x20, 0x00, 0x00, 0x00];
    assert_eq!(parse_proximity_pair(data), Some(0x2024));

    let data: &[u8] = &[0x08, 0x19, 0x01, 0x24, 0x20, 0x00, 0x00, 0x00];
    assert_eq!(parse_proximity_pair(data), None);
}

#[test]
fn settings_frame_decodes_id_and_payload() {
    let bytes = b"\x04\x00\x04\x00\x09\x00\x0d\x03\x00\x00\x00";
    let frame = Frame::parse(bytes).unwrap();
    let notice = SettingNotice::parse(&frame).unwrap();
    assert_eq!(notice.id, setting::NOISE_CONTROL);
    assert_eq!(notice.data, &[0x03, 0x00, 0x00, 0x00]);
}

#[test]
fn setting_writers_encode_the_documented_bytes() {
    assert_eq!(
        write_setting(setting::CHIME_VOLUME, 40).encode(),
        vec![0x04, 0x00, 0x04, 0x00, 0x09, 0x00, setting::CHIME_VOLUME, 40, 0, 0, 0]
    );
    assert_eq!(set_noise_control(3).payload, vec![setting::NOISE_CONTROL, 3, 0, 0, 0]);
    assert_eq!(set_conv_awareness(true).payload[1], 1);
    assert_eq!(set_conv_awareness(false).payload[1], 2);
    assert_eq!(set_ear_detection(false).payload[1], 2);
    assert_eq!(set_mic_mode(2).payload, vec![setting::MIC_MODE, 2, 0, 0, 0]);
}

#[test]
fn encode_then_parse_gives_the_frame_back() {
    let f = Frame::new(op::BATTERY, 0x07, vec![1, 2, 3]);
    let back = Frame::parse(&f.encode()).unwrap();
    assert_eq!(back.opcode, op::BATTERY);
    assert_eq!(back.subop, 0x07);
    assert_eq!(back.payload, vec![1, 2, 3]);
}

#[test]
fn ear_and_press_payloads() {
    assert_eq!(parse_ear(&[0x00, 0x01, 0x09]), Some((0x00, 0x01)));
    assert_eq!(parse_ear(&[0x00]), None);
    assert_eq!(parse_press(&[]), None);
    assert_eq!(parse_press(&[0x00, 0x02]), Some((Side::Left, PressKind::Double)));
    assert_eq!(parse_press(&[0x01, 0x04]), Some((Side::Right, PressKind::Long)));
    assert_eq!(parse_press(&[0x05, 0x01]), None);
    assert_eq!(parse_press(&[0x00, 0x09]), None);
}

#[test]
fn startup_sequence_is_handshake_features_subscribe() {
    let frames = startup_frames();
    assert_eq!(frames.len(), 3);
    assert_eq!(
        frames[0],
        vec![0x00, 0x00, 0x04, 0x00, 0x01, 0x00, 0x02, 0x00, 0, 0, 0, 0, 0, 0, 0, 0]
    );
    assert_eq!(
        frames[1],
        vec![0x04, 0x00, 0x04, 0x00, 0x4D, 0x00, 0xD7, 0x00, 0x00, 0x00, 0x00, 0x00, 0x00, 0x00]
    );
    assert_eq!(
        frames[2],
        vec![0x04, 0x00, 0x04, 0x00, 0x0F, 0x00, 0xFF, 0xFF, 0xFF, 0xFF, 0xFF]
    );
}
