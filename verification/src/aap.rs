//! Apple Accessory Protocol over L2CAP PSM 0x1001.
//!
//! Byte layouts are reverse-engineered from device captures.

use vstd::prelude::*;

use crate::model::{EarStatus, InEar, PressKind, Side};

pub mod battery_kind;
pub mod battery_status;
pub mod ear_status;
pub mod features;
pub mod listening_mode;
pub mod op;
pub mod setting;

verus! {

pub const AAP_PSM: u16 = 0x1001;

pub const APPLE_COMPANY_ID: u16 = 0x004C;

pub const PROXIMITY_PAIR_TYPE: u8 = 0x07;

pub const PROXIMITY_PAIR_LEN: u8 = 0x19;

/// The four bytes every outgoing frame starts with.
pub open spec fn magic() -> Seq<u8> {
    seq![0x04u8, 0x00u8, 0x04u8, 0x00u8]
}

/// The bytes of a frame: magic, opcode, sub-opcode, payload.
pub open spec fn encoded(opcode: u8, subop: u8, payload: Seq<u8>) -> Seq<u8> {
    magic() + seq![opcode, subop] + payload
}

/// What a received buffer decodes to. Byte 0 of the magic is not checked:
/// the handshake reply starts `01 00 04 00`.
pub open spec fn decoded(b: Seq<u8>) -> Option<(u8, u8, Seq<u8>)> {
    if b.len() >= 6 && b[1] == 0x00 && b[2] == 0x04 && b[3] == 0x00 {
        Some((b[4], b[5], b.skip(6)))
    } else {
        None
    }
}

/// One AAP frame.
#[derive(Clone, Debug)]
pub struct Frame {
    pub opcode: u8,
    pub subop: u8,
    pub payload: Vec<u8>,
}

impl View for Frame {
    type V = (u8, u8, Seq<u8>);

    open spec fn view(&self) -> (u8, u8, Seq<u8>) {
        (self.opcode, self.subop, self.payload@)
    }
}

/// Copies `b[from..]` into a new vector.
fn bytes_from(b: &[u8], from: usize) -> (r: Vec<u8>)
    requires
        from <= b@.len(),
    ensures
        r@ == b@.skip(from as int),
{
    let mut r: Vec<u8> = Vec::new();
    let mut i = from;
    while i < b.len()
        invariant
            from <= i <= b@.len(),
            r@ == b@.subrange(from as int, i as int),
        decreases b@.len() - i,
    {
        r.push(b[i]);
        assert(b@.subrange(from as int, i + 1) == b@.subrange(from as int, i as int).push(
            b@[i as int],
        ));
        i += 1;
    }
    assert(b@.subrange(from as int, b@.len() as int) == b@.skip(from as int));
    r
}

impl Frame {
    pub fn new(opcode: u8, subop: u8, payload: Vec<u8>) -> (f: Frame)
        ensures
            f@ == (opcode, subop, payload@),
    {
        Frame { opcode, subop, payload }
    }

    pub fn encode(&self) -> (buf: Vec<u8>)
        ensures
            buf@ == encoded(self.opcode, self.subop, self.payload@),
    {
        let mut buf: Vec<u8> = Vec::new();
        buf.push(0x04);
        buf.push(0x00);
        buf.push(0x04);
        buf.push(0x00);
        buf.push(self.opcode);
        buf.push(self.subop);
        let ghost head = buf@;
        assert(head == magic() + seq![self.opcode, self.subop]);
        let mut i: usize = 0;
        while i < self.payload.len()
            invariant
                i <= self.payload@.len(),
                buf@ == head + self.payload@.take(i as int),
            decreases self.payload@.len() - i,
        {
            buf.push(self.payload[i]);
            assert(self.payload@.take(i + 1) == self.payload@.take(i as int).push(
                self.payload@[i as int],
            ));
            i += 1;
        }
        assert(self.payload@.take(self.payload@.len() as int) == self.payload@);
        buf
    }

    pub fn parse(buf: &[u8]) -> (r: Option<Frame>)
        ensures
            match r {
                Some(f) => decoded(buf@) == Some(f@),
                None => decoded(buf@) is None,
            },
    {
        if buf.len() < 6 || buf[1] != 0x00 || buf[2] != 0x04 || buf[3] != 0x00 {
            return None;
        }
        Some(Frame { opcode: buf[4], subop: buf[5], payload: bytes_from(buf, 6) })
    }
}

/// Decoded payload of a `SETTINGS` (0x09) notification.
#[derive(Clone, Debug)]
pub struct SettingNotice<'a> {
    pub id: u8,
    pub data: &'a [u8],
}

impl<'a> SettingNotice<'a> {
    pub fn parse(frame: &'a Frame) -> (r: Option<SettingNotice<'a>>)
        ensures
            match r {
                Some(n) => frame.opcode == op::SETTINGS && frame.payload@.len() > 0 && n.id
                    == frame.payload@[0] && n.data@ == frame.payload@.skip(1),
                None => frame.opcode != op::SETTINGS || frame.payload@.len() == 0,
            },
    {
        if frame.opcode != op::SETTINGS || frame.payload.len() == 0 {
            return None;
        }
        let s = frame.payload.as_slice();
        let n = s.len();
        let data = &s[1..n];
        assert(s@.subrange(1, n as int) == frame.payload@.skip(1));
        Some(SettingNotice { id: s[0], data })
    }
}

/// The frame that writes `value` to setting `id`:
/// `04 00 04 00 09 00 [id] [value] 00 00 00`.
pub open spec fn setting_frame(id: u8, value: u8) -> (u8, u8, Seq<u8>) {
    (op::SETTINGS, 0x00u8, seq![id, value, 0x00u8, 0x00u8, 0x00u8])
}

pub fn write_setting(id: u8, value: u8) -> (f: Frame)
    ensures
        f@ == setting_frame(id, value),
{
    let mut payload: Vec<u8> = Vec::new();
    payload.push(id);
    payload.push(value);
    payload.push(0);
    payload.push(0);
    payload.push(0);
    Frame::new(op::SETTINGS, 0x00, payload)
}

/// The byte an on/off setting carries: 1 = enabled, 2 = disabled.
pub open spec fn switch_byte(on: bool) -> u8 {
    if on {
        1
    } else {
        2
    }
}

pub fn set_noise_control(mode: u8) -> (f: Frame)
    ensures
        f@ == setting_frame(setting::NOISE_CONTROL, mode),
{
    write_setting(setting::NOISE_CONTROL, mode)
}

pub fn set_conv_awareness(on: bool) -> (f: Frame)
    ensures
        f@ == setting_frame(setting::CONV_AWARE, switch_byte(on)),
{
    write_setting(
        setting::CONV_AWARE,
        if on {
            0x01
        } else {
            0x02
        },
    )
}

pub fn set_ear_detection(on: bool) -> (f: Frame)
    ensures
        f@ == setting_frame(setting::EAR_DETECTION, switch_byte(on)),
{
    write_setting(
        setting::EAR_DETECTION,
        if on {
            0x01
        } else {
            0x02
        },
    )
}

/// 0 = auto, 1 = always right, 2 = always left.
pub fn set_mic_mode(mode: u8) -> (f: Frame)
    ensures
        f@ == setting_frame(setting::MIC_MODE, mode),
{
    write_setting(setting::MIC_MODE, mode)
}

/// One component of the BATTERY (0x04) notification.
#[derive(Clone, Copy, Debug, PartialEq, Eq, Structural)]
pub struct BatteryComponent {
    /// `battery_kind::*`
    pub kind: u8,
    /// 0..=100, or 0xFF = unknown
    pub level: u8,
    /// `battery_status::*`
    pub status: u8,
}

/// How many components a BATTERY payload yields: the declared count,
/// capped by the 5-byte slots that follow it.
pub open spec fn battery_count(p: Seq<u8>) -> nat {
    if p.len() == 0 {
        0
    } else {
        let declared = p[0] as nat;
        let fit = ((p.len() - 1) / 5) as nat;
        if declared <= fit {
            declared
        } else {
            fit
        }
    }
}

/// Component `k`: slot `[kind] 01 [level] [status] 01` at `1 + 5k`.
pub open spec fn battery_component(p: Seq<u8>, k: int) -> BatteryComponent {
    BatteryComponent { kind: p[1 + 5 * k], level: p[3 + 5 * k], status: p[4 + 5 * k] }
}

/// Decodes a BATTERY notification payload (everything after
/// `04 00 04 00 04 00`): `[count] ([component] 01 [level] [status] 01) × count`.
pub fn parse_battery(payload: &[u8]) -> (out: Vec<BatteryComponent>)
    ensures
        out@.len() == battery_count(payload@),
        forall|k: int| 0 <= k < out@.len() ==> #[trigger] out@[k] == battery_component(payload@, k),
{
    if payload.len() == 0 {
        return Vec::new();
    }
    let declared = payload[0] as usize;
    let max_fit = (payload.len() - 1) / 5;
    let count = if declared <= max_fit {
        declared
    } else {
        max_fit
    };
    assert(5 * max_fit <= payload.len() - 1) by (nonlinear_arith)
        requires
            max_fit == (payload.len() - 1) / 5,
            payload.len() >= 1,
    ;
    let mut out: Vec<BatteryComponent> = Vec::new();
    let mut i: usize = 1;
    let mut j: usize = 0;
    while j < count
        invariant
            payload@.len() >= 1,
            count <= max_fit,
            5 * max_fit <= payload@.len() - 1,
            j <= count,
            i == 1 + 5 * j,
            out@.len() == j,
            forall|k: int| 0 <= k < j ==> #[trigger] out@[k] == battery_component(payload@, k),
        decreases count - j,
    {
        // The slots were counted to fit, so `i + 5 <= payload.len()` here.
        out.push(
            BatteryComponent { kind: payload[i], level: payload[i + 2], status: payload[i + 3] },
        );
        i += 5;
        j += 1;
    }
    out
}

/// Decodes an EAR_DETECTION (0x06) notification payload: the raw
/// `(primary, secondary)` status bytes.
pub fn parse_ear(payload: &[u8]) -> (r: Option<(u8, u8)>)
    ensures
        match r {
            Some((a, b)) => payload@.len() >= 2 && a == payload@[0] && b == payload@[1],
            None => payload@.len() < 2,
        },
{
    if payload.len() < 2 {
        return None;
    }
    Some((payload[0], payload[1]))
}

/// What a pod-status byte means.
pub open spec fn ear_status_of(b: u8) -> EarStatus {
    if b == 0x00 {
        EarStatus::InEar
    } else if b == 0x01 {
        EarStatus::OutOfEar
    } else if b == 0x02 {
        EarStatus::InCase
    } else {
        EarStatus::Unknown
    }
}

pub fn ear_status_from_byte(b: u8) -> (s: EarStatus)
    ensures
        s == ear_status_of(b),
{
    match b {
        0x00 => EarStatus::InEar,
        0x01 => EarStatus::OutOfEar,
        0x02 => EarStatus::InCase,
        _ => EarStatus::Unknown,
    }
}

pub fn parse_in_ear(payload: &[u8]) -> (r: Option<InEar>)
    ensures
        match r {
            Some(e) => payload@.len() >= 2 && e == (InEar {
                primary: ear_status_of(payload@[0]),
                secondary: ear_status_of(payload@[1]),
            }),
            None => payload@.len() < 2,
        },
{
    if payload.len() < 2 {
        return None;
    }
    Some(
        InEar {
            primary: ear_status_from_byte(payload[0]),
            secondary: ear_status_from_byte(payload[1]),
        },
    )
}

pub open spec fn side_of(b: u8) -> Option<Side> {
    if b == 0 {
        Some(Side::Left)
    } else if b == 1 {
        Some(Side::Right)
    } else {
        None
    }
}

pub open spec fn press_kind_of(b: u8) -> Option<PressKind> {
    if b == 1 {
        Some(PressKind::Single)
    } else if b == 2 {
        Some(PressKind::Double)
    } else if b == 3 {
        Some(PressKind::Triple)
    } else if b == 4 {
        Some(PressKind::Long)
    } else {
        None
    }
}

/// Decodes a stem press: `[side] [kind]`.
pub fn parse_press(payload: &[u8]) -> (r: Option<(Side, PressKind)>)
    ensures
        match r {
            Some((s, k)) => payload@.len() >= 2 && side_of(payload@[0]) == Some(s)
                && press_kind_of(payload@[1]) == Some(k),
            None => payload@.len() < 2 || side_of(payload@[0]) is None || press_kind_of(
                payload@[1],
            ) is None,
        },
{
    if payload.len() < 2 {
        return None;
    }
    let side = match payload[0] {
        0 => Side::Left,
        1 => Side::Right,
        _ => return None,
    };
    let kind = match payload[1] {
        1 => PressKind::Single,
        2 => PressKind::Double,
        3 => PressKind::Triple,
        4 => PressKind::Long,
        _ => return None,
    };
    Some((side, kind))
}

/// Product code from Apple proximity-pairing advertisement data:
/// `07 19 <flags> <model_lo> <model_hi> ...`.
pub fn parse_proximity_pair(data: &[u8]) -> (r: Option<u16>)
    ensures
        match r {
            Some(code) => data@.len() >= 8 && data@[0] == PROXIMITY_PAIR_TYPE && data@[1]
                == PROXIMITY_PAIR_LEN && code == data@[3] + 256 * data@[4],
            None => data@.len() < 8 || data@[0] != PROXIMITY_PAIR_TYPE || data@[1]
                != PROXIMITY_PAIR_LEN,
        },
{
    if data.len() < 8 {
        return None;
    }
    if data[0] != PROXIMITY_PAIR_TYPE || data[1] != PROXIMITY_PAIR_LEN {
        return None;
    }
    Some((data[3] as u16) + 256 * (data[4] as u16))
}

/// Decoding an encoded frame gives the frame back.
pub proof fn lemma_parse_encode(opcode: u8, subop: u8, payload: Seq<u8>)
    ensures
        decoded(encoded(opcode, subop, payload)) == Some((opcode, subop, payload)),
{
    let b = encoded(opcode, subop, payload);
    assert(b.skip(6) =~= payload);
}

/// Encoding a decoded buffer gives the buffer back, with the first magic
/// byte normalised to 0x04.
pub proof fn lemma_encode_parse(b: Seq<u8>)
    requires
        decoded(b) is Some,
    ensures
        match decoded(b) {
            Some((o, s, p)) => encoded(o, s, p) == b.update(0, 0x04u8),
            None => false,
        },
{
    if let Some((o, s, p)) = decoded(b) {
        assert(encoded(o, s, p) =~= b.update(0, 0x04u8));
    }
}

/// A setting written with `write_setting` reads back, through frame
/// decoding and the settings decoder, as the same id and value.
pub proof fn lemma_setting_roundtrip(id: u8, value: u8)
    ensures
        match setting_frame(id, value) {
            (o, s, p) => decoded(encoded(o, s, p)) == Some((o, s, p)) && o == op::SETTINGS
                && p.len() > 0 && p[0] == id && p.skip(1)[0] == value,
        },
{
    let (o, s, p) = setting_frame(id, value);
    lemma_parse_encode(o, s, p);
}

/// The opening packet the link sends before anything else.
pub open spec fn handshake_bytes() -> Seq<u8> {
    seq![
        0x00u8, 0x00u8, 0x04u8, 0x00u8, 0x01u8, 0x00u8, 0x02u8, 0x00u8, 0x00u8, 0x00u8, 0x00u8,
        0x00u8, 0x00u8, 0x00u8, 0x00u8, 0x00u8,
    ]
}

/// The link's opening sequence: the handshake, the feature flags that
/// make a Pro 2 report battery and conversation awareness (mask `0xD7`),
/// and the subscription to every notification.
pub open spec fn startup_bytes() -> Seq<Seq<u8>> {
    seq![
        handshake_bytes(),
        encoded(op::FEATURE_FLAGS, 0x00, seq![0xD7u8, 0x00u8, 0x00u8, 0x00u8, 0x00u8, 0x00u8, 0x00u8, 0x00u8]),
        encoded(op::SUBSCRIBE_NOTIF, 0x00, seq![0xFFu8, 0xFFu8, 0xFFu8, 0xFFu8, 0xFFu8]),
    ]
}

pub fn startup_frames() -> (r: Vec<Vec<u8>>)
    ensures
        r@.len() == 3,
        forall|i: int| 0 <= i < 3 ==> (#[trigger] r@[i])@ == startup_bytes()[i],
{
    let hs: Vec<u8> = vec![
        0x00, 0x00, 0x04, 0x00, 0x01, 0x00, 0x02, 0x00, 0x00, 0x00, 0x00, 0x00, 0x00, 0x00, 0x00,
        0x00,
    ];
    let features = Frame::new(op::FEATURE_FLAGS, 0x00, vec![0xD7, 0x00, 0x00, 0x00, 0x00, 0x00, 0x00, 0x00]).encode();
    let subscribe = Frame::new(op::SUBSCRIBE_NOTIF, 0x00, vec![0xFF, 0xFF, 0xFF, 0xFF, 0xFF]).encode();
    let mut r: Vec<Vec<u8>> = Vec::new();
    r.push(hs);
    r.push(features);
    r.push(subscribe);
    assert(r@[0]@ =~= handshake_bytes());
    r
}

} // verus!
