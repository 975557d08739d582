//! The daemon's decisions: how notifications from the buds change the
//! cached state, what each client request does, how a BlueZ refresh is
//! merged in, and when the AAP link is started or stopped.
//!
//! The daemon runtime performs the actions these functions choose (writes
//! frames, runs `bluetoothctl`/`pactl`, broadcasts events) and hands the
//! outcome back.

use vstd::prelude::*;

use crate::aap::{
    battery_kind, battery_status, decoded, encoded, op, parse_battery, parse_in_ear, setting,
    setting_frame, switch_byte, BatteryComponent, Frame, battery_component, battery_count,
    ear_status_of,
};
use crate::bluez::{bt_state, model_of_modalias, modalias_cut_ok, DeviceSummary};
use crate::caps::{Capabilities, Model};
use crate::ipc::{PressSide, Request, Response};
use crate::model::{
    AudioState, Battery, BtState, ConvAwareness, DeviceState, EarStatus, Event, InEar,
    MicSelection, Mode, PodSettings, PressCounts, Profile,
};
use crate::text::{
    chars_of, eq_strings, opt_view, owned, push_str, slice, string_of, trim, trim_chars, utf8_len,
    utf8_len_upto,
};

verus! {

/// `s` with its timestamp set to `now`.
pub open spec fn touched(s: DeviceState, now: i64) -> DeviceState {
    DeviceState { updated_at: now, ..s }
}

// ---------------------------------------------------------------------
// Notifications from the buds
// ---------------------------------------------------------------------

/// The level a battery component reports: none when the part is
/// disconnected or the level is out of range.
pub open spec fn level_of(c: BatteryComponent) -> Option<u8> {
    if c.status == battery_status::DISCONNECTED || c.level > 100 {
        None
    } else {
        Some(c.level)
    }
}

/// `b` with one component applied; unknown kinds change nothing.
pub open spec fn apply_component(b: Battery, c: BatteryComponent) -> Battery {
    let level = level_of(c);
    let charging = c.status == battery_status::CHARGING;
    if c.kind == battery_kind::LEFT {
        Battery { left: level, left_charging: charging, ..b }
    } else if c.kind == battery_kind::RIGHT {
        Battery { right: level, right_charging: charging, ..b }
    } else if c.kind == battery_kind::CASE {
        Battery { case: level, case_charging: charging, ..b }
    } else {
        b
    }
}

/// `b` with the components applied in order.
pub open spec fn battery_after(b: Battery, comps: Seq<BatteryComponent>) -> Battery
    decreases comps.len(),
{
    if comps.len() == 0 {
        b
    } else {
        apply_component(battery_after(b, comps.drop_last()), comps.last())
    }
}

/// The components a BATTERY payload carries.
pub open spec fn components_of(p: Seq<u8>) -> Seq<BatteryComponent> {
    Seq::new(battery_count(p), |k: int| battery_component(p, k))
}

/// Recording the case lid: the state and the edge to announce. Nothing
/// changes, and nothing is announced, when the lid is already known to be
/// in that position; otherwise the lid is set, the state touched, and the
/// new position is the edge.
pub open spec fn lid_update(s: DeviceState, open: bool, now: i64) -> (DeviceState, Option<bool>) {
    if s.case_lid_open == Some(open) {
        (s, None)
    } else {
        (touched(DeviceState { case_lid_open: Some(open), ..s }, now), Some(open))
    }
}

/// One event per lid transition: recording a position gives an edge
/// exactly when the position changed, leaves the lid in that position,
/// and recording the same position again changes and announces nothing.
pub proof fn lemma_lid_edge_once(s: DeviceState, open: bool, now: i64, later: i64)
    ensures
        lid_update(s, open, now).1 == (if s.case_lid_open == Some(open) {
            None::<bool>
        } else {
            Some(open)
        }),
        lid_update(s, open, now).0.case_lid_open == Some(open),
        lid_update(lid_update(s, open, now).0, open, later) == (lid_update(s, open, now).0, None::<bool>),
{
}

/// Records the case lid; `Some(open)` only on a change, so callers send
/// one event per transition.
pub fn update_case_lid(state: &mut DeviceState, open: bool, now: i64) -> (edge: Option<bool>)
    ensures
        (*final(state), edge) == lid_update(*old(state), open, now),
{
    if state.case_lid_open == Some(open) {
        return None;
    }
    state.case_lid_open = Some(open);
    state.updated_at = now;
    Some(open)
}

/// State and events after a BATTERY notification. The lid is taken as
/// open while the case reports a battery level (a heuristic until a lid
/// opcode is known); an event is sent on each lid change.
pub open spec fn battery_outcome(s: DeviceState, p: Seq<u8>, now: i64) -> (DeviceState, Seq<Event>) {
    let comps = components_of(p);
    if comps.len() == 0 {
        (s, seq![])
    } else {
        let b = battery_after(s.battery, comps);
        let s1 = touched(DeviceState { battery: b, ..s }, now);
        let open = b.case is Some;
        if s1.case_lid_open == Some(open) {
            (s1, seq![Event::Battery(b)])
        } else {
            (
                touched(DeviceState { case_lid_open: Some(open), ..s1 }, now),
                seq![Event::Battery(b), Event::CaseLid { open }],
            )
        }
    }
}

/// State and events after an EAR_DETECTION notification.
pub open spec fn ear_outcome(s: DeviceState, p: Seq<u8>, now: i64) -> (DeviceState, Seq<Event>) {
    if p.len() < 2 {
        (s, seq![])
    } else {
        let e = InEar { primary: ear_status_of(p[0]), secondary: ear_status_of(p[1]) };
        (touched(DeviceState { in_ear: e, ..s }, now), seq![Event::InEar(e)])
    }
}

pub open spec fn mode_of_byte(v: u8) -> Option<Mode> {
    if v == 1 {
        Some(Mode::Off)
    } else if v == 2 {
        Some(Mode::NoiseCancellation)
    } else if v == 3 {
        Some(Mode::Transparency)
    } else if v == 4 {
        Some(Mode::Adaptive)
    } else {
        None
    }
}

pub open spec fn conv_of_byte(v: u8) -> Option<ConvAwareness> {
    if v == 1 {
        Some(ConvAwareness::On)
    } else if v == 2 {
        Some(ConvAwareness::Off)
    } else {
        None
    }
}

pub open spec fn switch_of_byte(v: u8) -> Option<bool> {
    if v == 1 {
        Some(true)
    } else if v == 2 {
        Some(false)
    } else {
        None
    }
}

/// `s` with new settings, touched only when they differ.
pub open spec fn with_settings(s: DeviceState, n: PodSettings, now: i64) -> DeviceState {
    if n == s.settings {
        s
    } else {
        touched(DeviceState { settings: n, ..s }, now)
    }
}

/// State and events after a SETTINGS notification `[id] [value] ...`.
/// Mode and conversation-awareness changes are announced; a repeated
/// value changes nothing.
pub open spec fn settings_outcome(s: DeviceState, p: Seq<u8>, now: i64) -> (DeviceState, Seq<Event>) {
    if p.len() == 0 {
        (s, seq![])
    } else {
        let id = p[0];
        let v = if p.len() > 1 {
            p[1]
        } else {
            0u8
        };
        let st = s.settings;
        if id == setting::NOISE_CONTROL {
            match mode_of_byte(v) {
                Some(m) => (
                    with_settings(s, PodSettings { mode: Some(m), ..st }, now),
                    if st.mode == Some(m) {
                        seq![]
                    } else {
                        seq![Event::Mode(m)]
                    },
                ),
                None => (s, seq![]),
            }
        } else if id == setting::CONV_AWARE {
            match conv_of_byte(v) {
                Some(c) => (
                    with_settings(s, PodSettings { conv_awareness: Some(c), ..st }, now),
                    if st.conv_awareness == Some(c) {
                        seq![]
                    } else {
                        seq![Event::ConvAwareness(c)]
                    },
                ),
                None => (s, seq![]),
            }
        } else if id == setting::ONE_BUD_ANC {
            match switch_of_byte(v) {
                Some(b) => (with_settings(s, PodSettings { one_bud_anc: Some(b), ..st }, now), seq![]),
                None => (s, seq![]),
            }
        } else if id == setting::CHIME_VOLUME {
            (with_settings(s, PodSettings { chime_volume: Some(v), ..st }, now), seq![])
        } else if id == setting::AUTO_ANC_LEVEL {
            (with_settings(s, PodSettings { auto_anc_level: Some(v), ..st }, now), seq![])
        } else {
            (s, seq![])
        }
    }
}

/// State and events after any frame from the buds.
pub open spec fn frame_outcome(s: DeviceState, opcode: u8, p: Seq<u8>, now: i64) -> (
    DeviceState,
    Seq<Event>,
) {
    if opcode == op::BATTERY {
        battery_outcome(s, p, now)
    } else if opcode == op::EAR_DETECTION {
        ear_outcome(s, p, now)
    } else if opcode == op::SETTINGS {
        settings_outcome(s, p, now)
    } else {
        (s, seq![])
    }
}

/// A SETTINGS notification that repeats itself changes nothing and
/// announces nothing the second time: the cache already holds the value.
pub proof fn lemma_settings_repeat_is_quiet(s: DeviceState, p: Seq<u8>, now: i64, later: i64)
    ensures
        settings_outcome(settings_outcome(s, p, now).0, p, later) == (
            settings_outcome(s, p, now).0,
            Seq::<Event>::empty(),
        ),
{
    let s1 = settings_outcome(s, p, now).0;
    assert(settings_outcome(s1, p, later).1 =~= Seq::<Event>::empty());
}

fn apply_components(b: Battery, comps: &Vec<BatteryComponent>) -> (r: Battery)
    ensures
        r == battery_after(b, comps@),
{
    let mut cur = b;
    let mut i: usize = 0;
    while i < comps.len()
        invariant
            i <= comps.len(),
            cur == battery_after(b, comps@.take(i as int)),
        decreases comps.len() - i,
    {
        assert(comps@.take(i + 1).drop_last() == comps@.take(i as int));
        assert(comps@.take(i + 1).last() == comps@[i as int]);
        let c = comps[i];
        let level = if c.status == battery_status::DISCONNECTED || c.level > 100 {
            None
        } else {
            Some(c.level)
        };
        let charging = c.status == battery_status::CHARGING;
        if c.kind == battery_kind::LEFT {
            cur.left = level;
            cur.left_charging = charging;
        } else if c.kind == battery_kind::RIGHT {
            cur.right = level;
            cur.right_charging = charging;
        } else if c.kind == battery_kind::CASE {
            cur.case = level;
            cur.case_charging = charging;
        }
        i += 1;
    }
    assert(comps@.take(i as int) == comps@);
    cur
}

fn apply_battery(state: &mut DeviceState, payload: &[u8], now: i64) -> (events: Vec<Event>)
    ensures
        (*final(state), events@) == battery_outcome(*old(state), payload@, now),
{
    let comps = parse_battery(payload);
    assert(comps@ =~= components_of(payload@));
    if comps.len() == 0 {
        return Vec::new();
    }
    let b = apply_components(state.battery, &comps);
    state.battery = b;
    state.updated_at = now;
    let mut events = Vec::new();
    events.push(Event::Battery(b));
    let open = b.case.is_some();
    if let Some(o) = update_case_lid(state, open, now) {
        events.push(Event::CaseLid { open: o });
    }
    proof {
        if events@.len() == 1 {
            assert(events@ =~= seq![Event::Battery(b)]);
        } else {
            assert(events@ =~= seq![Event::Battery(b), Event::CaseLid { open }]);
        }
    }
    events
}

fn apply_ear(state: &mut DeviceState, payload: &[u8], now: i64) -> (events: Vec<Event>)
    ensures
        (*final(state), events@) == ear_outcome(*old(state), payload@, now),
{
    match parse_in_ear(payload) {
        Some(e) => {
            state.in_ear = e;
            state.updated_at = now;
            let mut events = Vec::new();
            events.push(Event::InEar(e));
            assert(events@ =~= seq![Event::InEar(e)]);
            events
        },
        None => Vec::new(),
    }
}

fn set_settings(state: &mut DeviceState, n: PodSettings, now: i64) -> (changed: bool)
    requires
        n.custom_name == old(state).settings.custom_name,
    ensures
        *final(state) == with_settings(*old(state), n, now),
        changed == (n != old(state).settings),
{
    let same = n.mode == state.settings.mode && n.conv_awareness == state.settings.conv_awareness
        && n.spatial_audio == state.settings.spatial_audio && n.ear_detection
        == state.settings.ear_detection && n.mic_selection == state.settings.mic_selection
        && n.loud_sound_reduction == state.settings.loud_sound_reduction && n.press_action_left
        == state.settings.press_action_left && n.press_action_right
        == state.settings.press_action_right && n.tone_on_press == state.settings.tone_on_press
        && n.one_bud_anc == state.settings.one_bud_anc && n.chime_volume
        == state.settings.chime_volume && n.auto_anc_level == state.settings.auto_anc_level;
    if same {
        assert(n == state.settings);
        return false;
    }
    state.settings = n;
    state.updated_at = now;
    true
}

fn apply_settings(state: &mut DeviceState, payload: &[u8], now: i64) -> (events: Vec<Event>)
    ensures
        (*final(state), events@) == settings_outcome(*old(state), payload@, now),
{
    let mut events: Vec<Event> = Vec::new();
    if payload.len() == 0 {
        return events;
    }
    let id = payload[0];
    let v = if payload.len() > 1 {
        payload[1]
    } else {
        0
    };
    let mut n = state.settings.duplicate();
    if id == setting::NOISE_CONTROL {
        let mode = match v {
            1 => Some(Mode::Off),
            2 => Some(Mode::NoiseCancellation),
            3 => Some(Mode::Transparency),
            4 => Some(Mode::Adaptive),
            _ => None,
        };
        if let Some(m) = mode {
            n.mode = Some(m);
            if set_settings(state, n, now) {
                events.push(Event::Mode(m));
                assert(events@ =~= seq![Event::Mode(m)]);
            }
        }
    } else if id == setting::CONV_AWARE {
        let conv = match v {
            1 => Some(ConvAwareness::On),
            2 => Some(ConvAwareness::Off),
            _ => None,
        };
        if let Some(c) = conv {
            n.conv_awareness = Some(c);
            if set_settings(state, n, now) {
                events.push(Event::ConvAwareness(c));
                assert(events@ =~= seq![Event::ConvAwareness(c)]);
            }
        }
    } else if id == setting::ONE_BUD_ANC {
        let on = match v {
            1 => Some(true),
            2 => Some(false),
            _ => None,
        };
        if let Some(b) = on {
            n.one_bud_anc = Some(b);
            set_settings(state, n, now);
        }
    } else if id == setting::CHIME_VOLUME {
        n.chime_volume = Some(v);
        set_settings(state, n, now);
    } else if id == setting::AUTO_ANC_LEVEL {
        n.auto_anc_level = Some(v);
        set_settings(state, n, now);
    }
    events
}

/// Applies a frame received from the buds to the cached state and
/// returns the events to broadcast.
pub fn apply_frame(state: &mut DeviceState, frame: &Frame, now: i64) -> (events: Vec<Event>)
    ensures
        (*final(state), events@) == frame_outcome(*old(state), frame.opcode, frame.payload@, now),
{
    let p = frame.payload.as_slice();
    if frame.opcode == op::BATTERY {
        apply_battery(state, p, now)
    } else if frame.opcode == op::EAR_DETECTION {
        apply_ear(state, p, now)
    } else if frame.opcode == op::SETTINGS {
        apply_settings(state, p, now)
    } else {
        Vec::new()
    }
}

// ---------------------------------------------------------------------
// Client requests
// ---------------------------------------------------------------------

/// What to do once an AAP setting frame has been written.
#[derive(Clone, Copy, Debug, PartialEq, Eq, Structural)]
pub enum AapFollowUp {
    /// Nothing: the buds echo the new value in a SETTINGS notification.
    AwaitEcho,
    Conv(ConvAwareness),
    EarDetection(bool),
    Mic(MicSelection),
    OneBudAnc(bool),
    ChimeVolume(u8),
    AutoAncLevel(u8),
}

/// A `bluetoothctl` / D-Bus job for the BlueZ side.
#[derive(Clone, Debug)]
pub enum BluezJob {
    Connect(String),
    Disconnect(String),
    /// Scan, then pair the first AirPods that is not yet paired.
    Pair,
    Unpair(String),
    List,
    SetTrusted(String, bool),
    /// Set the alias of the device at the address to the name.
    SetAlias(String, String),
}

/// A `pactl` job for the audio side.
#[derive(Clone, Debug)]
pub enum AudioJob {
    Volume(u8),
    Muted(bool),
    Profile(Profile),
    Codec(String),
    MakeDefault,
    Latency(i32),
}

/// What the daemon does with a request.
#[derive(Clone, Debug)]
pub enum Action {
    /// Answer at once.
    Reply(Response),
    /// Broadcast the event, then answer `Done`.
    Broadcast(Event),
    /// Write the frame to the AAP socket, then finish with [`complete_aap`].
    SendAap(Vec<u8>, AapFollowUp),
    /// Run the job, then finish with [`complete_bluez`].
    Bluez(BluezJob),
    /// Run the job, then finish with [`complete_audio`].
    Audio(AudioJob),
}

pub open spec fn not_impl_msg() -> Seq<char> {
    "not implemented for this device — no verified AAP packet for this setting yet"@
}

pub open spec fn unsupported_msg(feature: Seq<char>, m: Model) -> Seq<char> {
    feature + " is not supported on "@ + m.title()
}

/// Whether the device can switch to `mode`, and the noise-control byte.
pub open spec fn mode_gate(c: Capabilities, mode: Mode) -> (bool, u8) {
    match mode {
        Mode::Off => (c.has_anc || c.has_transparency, 1u8),
        Mode::NoiseCancellation => (c.has_anc, 2u8),
        Mode::Transparency => (c.has_transparency, 3u8),
        Mode::Adaptive => (c.has_adaptive, 4u8),
    }
}

/// A mode reads back as itself: the byte that `SetMode { m }` writes is
/// the listening-mode code of `m` (1 Off, 2 noise cancellation,
/// 3 transparency, 4 adaptive), the frame it sends decodes to a SETTINGS
/// frame carrying that byte, and the buds' echo of that frame sets the
/// cached mode to `m`, announcing it exactly when it changed.
pub proof fn lemma_mode_echo_reads_back(s: DeviceState, m: Mode, now: i64)
    ensures
        ({
            let code = mode_gate(s.capabilities, m).1;
            let sent = setting_bytes(setting::NOISE_CONTROL, code);
            let payload = seq![setting::NOISE_CONTROL, code, 0x00u8, 0x00u8, 0x00u8];
            let out = frame_outcome(s, op::SETTINGS, payload, now);
            &&& code == match m {
                Mode::Off => crate::aap::listening_mode::OFF,
                Mode::NoiseCancellation => crate::aap::listening_mode::NOISE_CANCEL,
                Mode::Transparency => crate::aap::listening_mode::TRANSPARENCY,
                Mode::Adaptive => crate::aap::listening_mode::ADAPTIVE,
            }
            &&& decoded(sent) == Some((op::SETTINGS, 0x00u8, payload))
            &&& out.0.settings.mode == Some(m)
            &&& out.1 == if s.settings.mode == Some(m) {
                Seq::<Event>::empty()
            } else {
                seq![Event::Mode(m)]
            }
        }),
{
    let code = mode_gate(s.capabilities, m).1;
    crate::aap::lemma_parse_encode(
        op::SETTINGS,
        0x00u8,
        seq![setting::NOISE_CONTROL, code, 0x00u8, 0x00u8, 0x00u8],
    );
}

/// The on/off settings read back as written: a switch is written as 1 for
/// on and 2 for off, and the buds' echo of the byte `SetConv { c }` or
/// `SetOneBudAnc { on }` writes sets that setting to `c` or `on`; a
/// conversation-awareness change is announced exactly when it changed.
pub proof fn lemma_switch_echo_reads_back(s: DeviceState, c: ConvAwareness, on: bool, now: i64)
    ensures
        switch_byte(true) == 1 && switch_byte(false) == 2,
        ({
            let p = seq![setting::CONV_AWARE, switch_byte(c == ConvAwareness::On), 0x00u8, 0x00u8, 0x00u8];
            let out = frame_outcome(s, op::SETTINGS, p, now);
            &&& out.0.settings.conv_awareness == Some(c)
            &&& out.1 == if s.settings.conv_awareness == Some(c) {
                Seq::<Event>::empty()
            } else {
                seq![Event::ConvAwareness(c)]
            }
        }),
        ({
            let p = seq![setting::ONE_BUD_ANC, switch_byte(on), 0x00u8, 0x00u8, 0x00u8];
            frame_outcome(s, op::SETTINGS, p, now).0.settings.one_bud_anc == Some(on)
        }),
{
}

/// Distinct modes write distinct bytes, so no echo can be read as
/// another mode.
pub proof fn lemma_mode_bytes_distinct(c: Capabilities, m1: Mode, m2: Mode)
    requires
        m1 != m2,
    ensures
        mode_gate(c, m1).1 != mode_gate(c, m2).1,
{
}

/// The mic-mode byte: 0 = auto, 1 = always right, 2 = always left.
pub open spec fn mic_byte(m: MicSelection) -> u8 {
    match m {
        MicSelection::Auto => 0,
        MicSelection::AlwaysRight => 1,
        MicSelection::AlwaysLeft => 2,
    }
}

/// The bytes of the frame that writes setting `id`.
pub open spec fn setting_bytes(id: u8, value: u8) -> Seq<u8> {
    encoded(op::SETTINGS, 0x00u8, seq![id, value, 0x00u8, 0x00u8, 0x00u8])
}

pub open spec fn is_reply_err(a: Action, msg: Seq<char>) -> bool {
    a matches Action::Reply(Response::Error(m)) && m@ == msg
}

pub open spec fn is_send(a: Action, bytes: Seq<u8>, f: AapFollowUp) -> bool {
    a matches Action::SendAap(b, g) && b@ == bytes && g == f
}

/// What a request for a setting gated on `has` does: refuse with the
/// feature name, or send the frame.
pub open spec fn gated(a: Action, has: bool, feature: Seq<char>, m: Model, bytes: Seq<u8>, f: AapFollowUp) -> bool {
    if has {
        is_send(a, bytes, f)
    } else {
        is_reply_err(a, unsupported_msg(feature, m))
    }
}

/// What a request for a setting with no known AAP packet does.
pub open spec fn not_implemented(a: Action, has: bool, feature: Seq<char>, m: Model) -> bool {
    if has {
        is_reply_err(a, not_impl_msg())
    } else {
        is_reply_err(a, unsupported_msg(feature, m))
    }
}

/// What a request that needs the device address does.
pub open spec fn with_address(a: Action, addr: Option<String>, missing: Seq<char>, job: spec_fn(String) -> BluezJob) -> bool {
    match addr {
        None => is_reply_err(a, missing),
        Some(x) => a matches Action::Bluez(j) && j == job(x),
    }
}

/// Why a name cannot be used for the device, if it cannot.
pub open spec fn rename_refusal(name: Seq<char>, addr: Option<String>) -> Option<Seq<char>> {
    if trim(name).len() == 0 {
        Some("name cannot be empty"@)
    } else if utf8_len(name) > 64 {
        Some("name too long (max 64 bytes UTF-8)"@)
    } else if addr is None {
        Some("no AirPods address known yet — try 'podctl status' first"@)
    } else {
        None
    }
}

fn err_reply(msg: &str) -> (a: Action)
    ensures
        is_reply_err(a, msg@),
{
    Action::Reply(Response::err(msg))
}

fn unsupported(feature: &str, m: Model) -> (a: Action)
    ensures
        is_reply_err(a, unsupported_msg(feature@, m)),
{
    let mut s = owned(feature);
    push_str(&mut s, " is not supported on ");
    push_str(&mut s, m.label());
    Action::Reply(Response::Error(s))
}

fn send_setting(id: u8, value: u8, f: AapFollowUp) -> (a: Action)
    ensures
        is_send(a, setting_bytes(id, value), f),
{
    let frame = crate::aap::write_setting(id, value);
    Action::SendAap(frame.encode(), f)
}

fn not_impl_action() -> (a: Action)
    ensures
        is_reply_err(a, not_impl_msg()),
{
    err_reply("not implemented for this device — no verified AAP packet for this setting yet")
}

/// Decides what to do with a request. Only `DebugEmitCaseLid` changes the
/// state here (it records the lid without touching the timestamp);
/// everything else is either answered at once or finished by a
/// `complete_*` function once the outside work is done.
pub fn handle(state: &mut DeviceState, req: &Request) -> (a: Action)
    ensures
        match *req {
            Request::DebugEmitCaseLid { open } => *final(state) == (DeviceState {
                case_lid_open: Some(open),
                ..*old(state)
            }),
            _ => *final(state) == *old(state),
        },
        ({
            let s = *old(state);
            let c = s.capabilities;
            let m = c.model;
            match *req {
                Request::Status | Request::Battery => a matches Action::Reply(Response::State(d))
                    && d.same_as(s),
                Request::Ping => a == Action::Reply(Response::Pong),
                Request::SetMode { mode } => if mode_gate(c, mode).0 {
                    is_send(
                        a,
                        setting_bytes(setting::NOISE_CONTROL, mode_gate(c, mode).1),
                        AapFollowUp::AwaitEcho,
                    )
                } else {
                    is_reply_err(a, mode.label() + " is not supported on "@ + m.title())
                },
                Request::SetConv { conv } => gated(
                    a,
                    c.has_conv_awareness,
                    "conversation awareness"@,
                    m,
                    setting_bytes(setting::CONV_AWARE, switch_byte(conv == ConvAwareness::On)),
                    AapFollowUp::Conv(conv),
                ),
                Request::SetSpatial { .. } => not_implemented(a, c.has_spatial_audio, "spatial audio"@, m),
                Request::SetEarDetection { on } => gated(
                    a,
                    c.has_ear_detection_setting,
                    "ear detection"@,
                    m,
                    setting_bytes(setting::EAR_DETECTION, switch_byte(on)),
                    AapFollowUp::EarDetection(on),
                ),
                Request::SetMic { mic } => gated(
                    a,
                    c.has_mic_selection,
                    "mic selection"@,
                    m,
                    setting_bytes(setting::MIC_MODE, mic_byte(mic)),
                    AapFollowUp::Mic(mic),
                ),
                Request::SetLoudReduction { .. } => not_implemented(
                    a,
                    c.has_loud_sound_reduction,
                    "loud-sound reduction"@,
                    m,
                ),
                Request::SetPressAction { .. } => not_implemented(
                    a,
                    c.has_press_and_hold,
                    "press-and-hold mapping"@,
                    m,
                ),
                Request::SetToneOnPress { .. } => not_implemented(a, c.has_tone_on_press, "press tone"@, m),
                Request::Rename { name } => match rename_refusal(name@, s.address) {
                    Some(msg) => is_reply_err(a, msg),
                    None => a matches Action::Bluez(BluezJob::SetAlias(x, n)) && Some(x)
                        == s.address && n@ == name@,
                },
                Request::Connect => with_address(
                    a,
                    s.address,
                    "no AirPods paired — run 'podctl pair' first."@,
                    |x: String| BluezJob::Connect(x),
                ),
                Request::Disconnect => with_address(
                    a,
                    s.address,
                    "no AirPods paired."@,
                    |x: String| BluezJob::Disconnect(x),
                ),
                Request::Pair => a matches Action::Bluez(BluezJob::Pair),
                Request::Unpair => with_address(
                    a,
                    s.address,
                    "nothing to unpair."@,
                    |x: String| BluezJob::Unpair(x),
                ),
                Request::List => a matches Action::Bluez(BluezJob::List),
                Request::SetAutoConnect { on } => with_address(
                    a,
                    s.address,
                    "no AirPods paired."@,
                    |x: String| BluezJob::SetTrusted(x, on),
                ),
                Request::SetVolume { percent } => a matches Action::Audio(AudioJob::Volume(p))
                    && p == percent,
                Request::SetMuted { muted } => a matches Action::Audio(AudioJob::Muted(x)) && x
                    == muted,
                Request::SetProfile { profile } => a matches Action::Audio(AudioJob::Profile(p))
                    && p == profile,
                Request::SetCodec { codec } => a matches Action::Audio(AudioJob::Codec(x)) && x@
                    == codec@,
                Request::MakeDefaultSink => a matches Action::Audio(AudioJob::MakeDefault),
                Request::SetLatencyOffset { ms } => a matches Action::Audio(AudioJob::Latency(x))
                    && x == ms,
                Request::SetOneBudAnc { on } => is_send(
                    a,
                    setting_bytes(setting::ONE_BUD_ANC, switch_byte(on)),
                    AapFollowUp::OneBudAnc(on),
                ),
                Request::SetChimeVolume { level } => is_send(
                    a,
                    setting_bytes(setting::CHIME_VOLUME, level),
                    AapFollowUp::ChimeVolume(level),
                ),
                Request::SetAutoAncLevel { level } => is_send(
                    a,
                    setting_bytes(setting::AUTO_ANC_LEVEL, level),
                    AapFollowUp::AutoAncLevel(level),
                ),
                Request::DebugEmitCaseLid { open } => a == Action::Broadcast(Event::CaseLid { open }),
                Request::ShowPopup => a == Action::Broadcast(Event::ShowPopup),
                Request::Watch => is_reply_err(
                    a,
                    "watch is a streaming request — handled separately"@,
                ),
            }
        }),
{
    let c = state.capabilities;
    let m = c.model;
    match req {
        Request::Status | Request::Battery => Action::Reply(Response::State(state.duplicate())),
        Request::Ping => Action::Reply(Response::Pong),
        Request::SetMode { mode } => {
            let (supported, code) = match mode {
                Mode::Off => (c.has_anc || c.has_transparency, 1u8),
                Mode::NoiseCancellation => (c.has_anc, 2u8),
                Mode::Transparency => (c.has_transparency, 3u8),
                Mode::Adaptive => (c.has_adaptive, 4u8),
            };
            if !supported {
                unsupported(mode.as_str(), m)
            } else {
                send_setting(setting::NOISE_CONTROL, code, AapFollowUp::AwaitEcho)
            }
        },
        Request::SetConv { conv } => {
            if !c.has_conv_awareness {
                unsupported("conversation awareness", m)
            } else {
                send_setting(
                    setting::CONV_AWARE,
                    if *conv == ConvAwareness::On {
                        1
                    } else {
                        2
                    },
                    AapFollowUp::Conv(*conv),
                )
            }
        },
        Request::SetSpatial { .. } => {
            if !c.has_spatial_audio {
                unsupported("spatial audio", m)
            } else {
                not_impl_action()
            }
        },
        Request::SetEarDetection { on } => {
            if !c.has_ear_detection_setting {
                unsupported("ear detection", m)
            } else {
                send_setting(
                    setting::EAR_DETECTION,
                    if *on {
                        1
                    } else {
                        2
                    },
                    AapFollowUp::EarDetection(*on),
                )
            }
        },
        Request::SetMic { mic } => {
            if !c.has_mic_selection {
                unsupported("mic selection", m)
            } else {
                let code = match mic {
                    MicSelection::Auto => 0u8,
                    MicSelection::AlwaysRight => 1,
                    MicSelection::AlwaysLeft => 2,
                };
                send_setting(setting::MIC_MODE, code, AapFollowUp::Mic(*mic))
            }
        },
        Request::SetLoudReduction { .. } => {
            if !c.has_loud_sound_reduction {
                unsupported("loud-sound reduction", m)
            } else {
                not_impl_action()
            }
        },
        Request::SetPressAction { .. } => {
            if !c.has_press_and_hold {
                unsupported("press-and-hold mapping", m)
            } else {
                not_impl_action()
            }
        },
        Request::SetToneOnPress { .. } => {
            if !c.has_tone_on_press {
                unsupported("press tone", m)
            } else {
                not_impl_action()
            }
        },
        Request::Rename { name } => {
            let v = chars_of(name.as_str());
            if trim_chars(&v).len() == 0 {
                return err_reply("name cannot be empty");
            }
            if utf8_len_upto(&v, 64).is_none() {
                return err_reply("name too long (max 64 bytes UTF-8)");
            }
            match &state.address {
                Some(addr) => Action::Bluez(BluezJob::SetAlias(addr.clone(), name.clone())),
                None => err_reply("no AirPods address known yet — try 'podctl status' first"),
            }
        },
        Request::Connect => match &state.address {
            Some(addr) => Action::Bluez(BluezJob::Connect(addr.clone())),
            None => err_reply("no AirPods paired — run 'podctl pair' first."),
        },
        Request::Disconnect => match &state.address {
            Some(addr) => Action::Bluez(BluezJob::Disconnect(addr.clone())),
            None => err_reply("no AirPods paired."),
        },
        Request::Pair => Action::Bluez(BluezJob::Pair),
        Request::Unpair => match &state.address {
            Some(addr) => Action::Bluez(BluezJob::Unpair(addr.clone())),
            None => err_reply("nothing to unpair."),
        },
        Request::List => Action::Bluez(BluezJob::List),
        Request::SetAutoConnect { on } => match &state.address {
            Some(addr) => Action::Bluez(BluezJob::SetTrusted(addr.clone(), *on)),
            None => err_reply("no AirPods paired."),
        },
        Request::SetVolume { percent } => Action::Audio(AudioJob::Volume(*percent)),
        Request::SetMuted { muted } => Action::Audio(AudioJob::Muted(*muted)),
        Request::SetProfile { profile } => Action::Audio(AudioJob::Profile(*profile)),
        Request::SetCodec { codec } => Action::Audio(AudioJob::Codec(codec.clone())),
        Request::MakeDefaultSink => Action::Audio(AudioJob::MakeDefault),
        Request::SetLatencyOffset { ms } => Action::Audio(AudioJob::Latency(*ms)),
        Request::SetOneBudAnc { on } => send_setting(
            setting::ONE_BUD_ANC,
            if *on {
                1
            } else {
                2
            },
            AapFollowUp::OneBudAnc(*on),
        ),
        Request::SetChimeVolume { level } => send_setting(
            setting::CHIME_VOLUME,
            *level,
            AapFollowUp::ChimeVolume(*level),
        ),
        Request::SetAutoAncLevel { level } => send_setting(
            setting::AUTO_ANC_LEVEL,
            *level,
            AapFollowUp::AutoAncLevel(*level),
        ),
        Request::DebugEmitCaseLid { open } => {
            state.case_lid_open = Some(*open);
            Action::Broadcast(Event::CaseLid { open: *open })
        },
        Request::ShowPopup => Action::Broadcast(Event::ShowPopup),
        Request::Watch => err_reply("watch is a streaming request — handled separately"),
    }
}

/// State and events once an AAP setting frame was written (`sent` is
/// the write's outcome).
pub open spec fn aap_outcome(s: DeviceState, f: AapFollowUp, now: i64) -> (DeviceState, Seq<Event>) {
    let st = s.settings;
    match f {
        AapFollowUp::AwaitEcho => (s, seq![]),
        AapFollowUp::Conv(c) => (
            with_settings(s, PodSettings { conv_awareness: Some(c), ..st }, now),
            if st.conv_awareness == Some(c) {
                seq![]
            } else {
                seq![Event::ConvAwareness(c)]
            },
        ),
        AapFollowUp::EarDetection(on) => (
            touched(DeviceState { settings: PodSettings { ear_detection: Some(on), ..st }, ..s }, now),
            seq![Event::SettingsChanged],
        ),
        AapFollowUp::Mic(m) => (
            touched(DeviceState { settings: PodSettings { mic_selection: Some(m), ..st }, ..s }, now),
            seq![Event::SettingsChanged],
        ),
        AapFollowUp::OneBudAnc(on) => (
            touched(DeviceState { settings: PodSettings { one_bud_anc: Some(on), ..st }, ..s }, now),
            seq![Event::SettingsChanged],
        ),
        AapFollowUp::ChimeVolume(l) => (
            touched(DeviceState { settings: PodSettings { chime_volume: Some(l), ..st }, ..s }, now),
            seq![Event::SettingsChanged],
        ),
        AapFollowUp::AutoAncLevel(l) => (
            touched(
                DeviceState { settings: PodSettings { auto_anc_level: Some(l), ..st }, ..s },
                now,
            ),
            seq![Event::SettingsChanged],
        ),
    }
}

/// Records a setting that the buds do not echo and announces the change.
fn record_setting(state: &mut DeviceState, n: PodSettings, now: i64) -> (events: Vec<Event>)
    ensures
        *final(state) == touched(DeviceState { settings: n, ..*old(state) }, now),
        events@ == seq![Event::SettingsChanged],
{
    state.settings = n;
    state.updated_at = now;
    let mut events = Vec::new();
    events.push(Event::SettingsChanged);
    assert(events@ =~= seq![Event::SettingsChanged]);
    events
}

fn apply_follow_up(state: &mut DeviceState, f: AapFollowUp, now: i64) -> (events: Vec<Event>)
    ensures
        (*final(state), events@) == aap_outcome(*old(state), f, now),
{
    let mut n = state.settings.duplicate();
    match f {
        AapFollowUp::AwaitEcho => Vec::new(),
        AapFollowUp::Conv(c) => {
            let mut events: Vec<Event> = Vec::new();
            n.conv_awareness = Some(c);
            if set_settings(state, n, now) {
                events.push(Event::ConvAwareness(c));
                assert(events@ =~= seq![Event::ConvAwareness(c)]);
            }
            events
        },
        AapFollowUp::EarDetection(on) => {
            n.ear_detection = Some(on);
            record_setting(state, n, now)
        },
        AapFollowUp::Mic(m) => {
            n.mic_selection = Some(m);
            record_setting(state, n, now)
        },
        AapFollowUp::OneBudAnc(on) => {
            n.one_bud_anc = Some(on);
            record_setting(state, n, now)
        },
        AapFollowUp::ChimeVolume(l) => {
            n.chime_volume = Some(l);
            record_setting(state, n, now)
        },
        AapFollowUp::AutoAncLevel(l) => {
            n.auto_anc_level = Some(l);
            record_setting(state, n, now)
        },
    }
}

/// Finishes a `SendAap` action: on a failed write the error is the
/// answer and nothing changes; otherwise the value is reflected in the
/// cached state at once (the buds echo only some settings).
pub fn complete_aap(state: &mut DeviceState, f: AapFollowUp, sent: Result<(), String>, now: i64) -> (r: (
    Response,
    Vec<Event>,
))
    ensures
        match sent {
            Err(e) => *final(state) == *old(state) && r.0 == Response::Error(e) && r.1@.len() == 0,
            Ok(_) => r.0 == Response::Done && (*final(state), r.1@) == aap_outcome(
                *old(state),
                f,
                now,
            ),
        },
{
    match sent {
        Err(e) => (Response::Error(e), Vec::new()),
        Ok(_) => {
            let events = apply_follow_up(state, f, now);
            (Response::Done, events)
        },
    }
}

/// Finishes a `Bluez` action (other than `List`): on failure the error is
/// the answer and nothing changes.
pub fn complete_bluez(state: &mut DeviceState, job: &BluezJob, result: Result<(), String>, now: i64) -> (r: (
    Response,
    Vec<Event>,
))
    ensures
        match result {
            Err(e) => *final(state) == *old(state) && r.0 == Response::Error(e) && r.1@.len() == 0,
            Ok(_) => r.0 == Response::Done && match *job {
                BluezJob::Connect(_) => *final(state) == touched(
                    DeviceState { connected: true, ..*old(state) },
                    now,
                ) && r.1@.len() == 0,
                BluezJob::Disconnect(_) => *final(state) == touched(
                    DeviceState { connected: false, ..*old(state) },
                    now,
                ) && r.1@ == seq![Event::Disconnected],
                BluezJob::Unpair(_) => final(state).is_empty_at(now) && r.1@.len() == 0,
                BluezJob::SetTrusted(_, on) => *final(state) == touched(
                    DeviceState {
                        bluetooth: BtState { trusted: on, auto_connect: on, ..old(state).bluetooth },
                        ..*old(state)
                    },
                    now,
                ) && r.1@.len() == 0,
                BluezJob::SetAlias(_, name) => final(state).name == Some(name)
                    && final(state).settings.custom_name == Some(name) && *final(state) == touched(
                    DeviceState {
                        name: final(state).name,
                        settings: PodSettings {
                            custom_name: final(state).settings.custom_name,
                            ..old(state).settings
                        },
                        ..*old(state)
                    },
                    now,
                ) && r.1@.len() == 0,
                _ => *final(state) == *old(state) && r.1@.len() == 0,
            },
        },
{
    match result {
        Err(e) => (Response::Error(e), Vec::new()),
        Ok(_) => {
            let events = apply_bluez_job(state, job, now);
            (Response::Done, events)
        },
    }
}

fn apply_bluez_job(state: &mut DeviceState, job: &BluezJob, now: i64) -> (events: Vec<Event>)
    ensures
        match *job {
            BluezJob::Connect(_) => *final(state) == touched(
                DeviceState { connected: true, ..*old(state) },
                now,
            ) && events@.len() == 0,
            BluezJob::Disconnect(_) => *final(state) == touched(
                DeviceState { connected: false, ..*old(state) },
                now,
            ) && events@ == seq![Event::Disconnected],
            BluezJob::Unpair(_) => final(state).is_empty_at(now) && events@.len() == 0,
            BluezJob::SetTrusted(_, on) => *final(state) == touched(
                DeviceState {
                    bluetooth: BtState { trusted: on, auto_connect: on, ..old(state).bluetooth },
                    ..*old(state)
                },
                now,
            ) && events@.len() == 0,
            BluezJob::SetAlias(_, name) => final(state).name == Some(name)
                && final(state).settings.custom_name == Some(name) && *final(state) == touched(
                DeviceState {
                    name: final(state).name,
                    settings: PodSettings {
                        custom_name: final(state).settings.custom_name,
                        ..old(state).settings
                    },
                    ..*old(state)
                },
                now,
            ) && events@.len() == 0,
            _ => *final(state) == *old(state) && events@.len() == 0,
        },
{
    match job {
        BluezJob::Connect(_) => {
            set_connected(state, true, now);
            Vec::new()
        },
        BluezJob::Disconnect(_) => {
            set_connected(state, false, now);
            let mut events: Vec<Event> = Vec::new();
            events.push(Event::Disconnected);
            assert(events@ =~= seq![Event::Disconnected]);
            events
        },
        BluezJob::Unpair(_) => {
            forget_device(state, now);
            Vec::new()
        },
        BluezJob::SetTrusted(_, on) => {
            set_trusted_state(state, *on, now);
            Vec::new()
        },
        BluezJob::SetAlias(_, name) => {
            rename_state(state, name, now);
            Vec::new()
        },
        _ => Vec::new(),
    }
}

fn set_connected(state: &mut DeviceState, on: bool, now: i64)
    ensures
        *final(state) == touched(DeviceState { connected: on, ..*old(state) }, now),
{
    state.connected = on;
    state.updated_at = now;
}

fn forget_device(state: &mut DeviceState, now: i64)
    ensures
        final(state).is_empty_at(now),
{
    *state = DeviceState::default();
    state.updated_at = now;
}

fn set_trusted_state(state: &mut DeviceState, on: bool, now: i64)
    ensures
        *final(state) == touched(
            DeviceState {
                bluetooth: BtState { trusted: on, auto_connect: on, ..old(state).bluetooth },
                ..*old(state)
            },
            now,
        ),
{
    let mut bt = state.bluetooth;
    bt.trusted = on;
    bt.auto_connect = on;
    state.bluetooth = bt;
    state.updated_at = now;
}

fn rename_state(state: &mut DeviceState, name: &String, now: i64)
    ensures
        final(state).name == Some(*name),
        final(state).settings.custom_name == Some(*name),
        *final(state) == touched(
            DeviceState {
                name: final(state).name,
                settings: PodSettings { custom_name: final(state).settings.custom_name, ..old(state).settings },
                ..*old(state)
            },
            now,
        ),
{
    let mut n = state.settings.duplicate();
    n.custom_name = Some(name.clone());
    state.settings = n;
    state.name = Some(name.clone());
    state.updated_at = now;
}

/// The answer to a `List` job.
pub fn list_reply(result: Result<Vec<crate::model::PairedDevice>, String>) -> (r: Response)
    ensures
        match result {
            Ok(items) => r == Response::List(items),
            Err(e) => r == Response::Error(e),
        },
{
    match result {
        Ok(items) => Response::List(items),
        Err(e) => Response::Error(e),
    }
}

fn apply_audio_job(audio: &mut AudioState, job: &AudioJob)
    ensures
        match *job {
            AudioJob::Volume(p) => *final(audio) == (AudioState {
                volume_percent: Some(p),
                ..*old(audio)
            }),
            AudioJob::Muted(m) => *final(audio) == (AudioState { muted: m, ..*old(audio) }),
            AudioJob::Profile(p) => *final(audio) == (AudioState { profile: Some(p), ..*old(audio) }),
            AudioJob::Codec(c) => *final(audio) == (AudioState { codec: Some(c), ..*old(audio) }),
            AudioJob::MakeDefault => *final(audio) == (AudioState {
                is_default_sink: true,
                ..*old(audio)
            }),
            AudioJob::Latency(ms) => *final(audio) == (AudioState {
                latency_offset_ms: ms,
                ..*old(audio)
            }),
        },
{
    match job {
        AudioJob::Volume(p) => audio.volume_percent = Some(*p),
        AudioJob::Muted(m) => audio.muted = *m,
        AudioJob::Profile(p) => audio.profile = Some(*p),
        AudioJob::Codec(c) => audio.codec = Some(c.clone()),
        AudioJob::MakeDefault => audio.is_default_sink = true,
        AudioJob::Latency(ms) => audio.latency_offset_ms = *ms,
    }
}

/// The audio state after a successful job.
pub open spec fn audio_after(a: AudioState, job: AudioJob) -> AudioState {
    match job {
        AudioJob::Volume(p) => AudioState { volume_percent: Some(p), ..a },
        AudioJob::Muted(m) => AudioState { muted: m, ..a },
        AudioJob::Profile(p) => AudioState { profile: Some(p), ..a },
        AudioJob::Codec(c) => AudioState { codec: Some(c), ..a },
        AudioJob::MakeDefault => AudioState { is_default_sink: true, ..a },
        AudioJob::Latency(ms) => AudioState { latency_offset_ms: ms, ..a },
    }
}

/// Finishes an `Audio` action: on success the cached audio state takes
/// the new value.
pub fn complete_audio(state: &mut DeviceState, job: &AudioJob, result: Result<(), String>, now: i64) -> (r: Response)
    ensures
        match result {
            Err(e) => *final(state) == *old(state) && r == Response::Error(e),
            Ok(_) => r == Response::Done && *final(state) == touched(
                DeviceState { audio: audio_after(old(state).audio, *job), ..*old(state) },
                now,
            ),
        },
{
    match result {
        Err(e) => Response::Error(e),
        Ok(_) => {
            apply_audio_job(&mut state.audio, job);
            state.updated_at = now;
            Response::Done
        },
    }
}

// ---------------------------------------------------------------------
// BlueZ refresh and the AAP link
// ---------------------------------------------------------------------

/// The state built from one BlueZ + PipeWire poll: the primary AirPods
/// (if any is paired), its live RSSI, and the audio side. Everything the
/// AAP link reports is left empty.
pub fn snapshot_now(dev: Option<&DeviceSummary>, rssi: Option<i16>, audio: AudioState, now: i64) -> (r: DeviceState)
    requires
        match dev {
            Some(d) => modalias_cut_ok(d@.modalias),
            None => true,
        },
    ensures
        r.audio == audio,
        r.updated_at == now,
        r.info.is_empty(),
        r.battery == Battery::empty(),
        r.in_ear == (InEar { primary: EarStatus::Unknown, secondary: EarStatus::Unknown }),
        r.case_lid_open is None,
        r.press_counts == PressCounts::zero(),
        r.settings.is_empty(),
        match dev {
            None => {
                &&& !r.connected
                &&& r.address is None
                &&& r.name is None
                &&& r.capabilities == Capabilities::conservative_of(Model::Unknown)
                &&& r.bluetooth == BtState::empty()
            },
            Some(d) => {
                &&& r.connected == d.connected
                &&& r.address == Some(d.address)
                &&& r.name == Some(d.name)
                &&& r.capabilities == model_of_modalias(d@.modalias).caps()
                &&& r.bluetooth == (BtState {
                    rssi_dbm: rssi,
                    paired: d.paired,
                    trusted: d.trusted,
                    auto_connect: d.trusted,
                })
            },
        },
{
    let mut s = DeviceState::default();
    if let Some(d) = dev {
        s.address = Some(d.address.clone());
        s.name = Some(d.name.clone());
        s.connected = d.connected;
        s.capabilities = d.capabilities();
        s.bluetooth = bt_state(d, rssi);
    }
    s.audio = audio;
    s.updated_at = now;
    s
}

/// The address and connection last announced to watchers.
#[derive(Clone, Debug)]
pub struct LinkTrack {
    pub prev_addr: Option<String>,
    pub prev_connected: bool,
}

impl LinkTrack {
    /// Nothing announced yet.
    pub fn new() -> (t: LinkTrack)
        ensures
            t.prev_addr is None,
            !t.prev_connected,
    {
        LinkTrack { prev_addr: None, prev_connected: false }
    }
}

/// A fresh poll merged into the cache: what only the AAP link knows
/// (battery, in-ear, settings) is kept, and a known model is sticky
/// against a poll that resolves none.
pub open spec fn merged(old: DeviceState, snap: DeviceState, now: i64) -> DeviceState {
    DeviceState {
        battery: old.battery,
        in_ear: old.in_ear,
        settings: old.settings,
        capabilities: if old.capabilities.model != Model::Unknown && snap.capabilities.model
            == Model::Unknown {
            old.capabilities
        } else {
            snap.capabilities
        },
        updated_at: now,
        ..snap
    }
}

/// The device name a `Connected` event carries ("" when unknown).
pub open spec fn name_or_empty(n: Option<String>) -> Seq<char> {
    match n {
        Some(x) => x@,
        None => seq![],
    }
}

pub open spec fn is_connected_event(e: Event, name: Seq<char>, addr: Seq<char>) -> bool {
    e matches Event::Connected { name: n, address: a } && n@ == name && a@ == addr
}

/// How the tracker moves from `t` to `t2` on the merged state `m`, and
/// what is announced: a new address or a connection change is an edge;
/// losing the address is a disconnect.
pub open spec fn link_edge(t: LinkTrack, m: DeviceState, t2: LinkTrack, ev: Seq<Event>) -> bool {
    match m.address {
        Some(a) => if opt_view(t.prev_addr) != Some(a@) || m.connected != t.prev_connected {
            &&& opt_view(t2.prev_addr) == Some(a@)
            &&& t2.prev_connected == m.connected
            &&& if m.connected {
                ev.len() == 1 && is_connected_event(ev[0], name_or_empty(m.name), a@)
            } else if t.prev_addr is Some {
                ev == seq![Event::Disconnected]
            } else {
                ev.len() == 0
            }
        } else {
            t2 == t && ev.len() == 0
        },
        None => if t.prev_addr is Some {
            t2.prev_addr is None && !t2.prev_connected && ev == seq![Event::Disconnected]
        } else {
            t2 == t && ev.len() == 0
        },
    }
}

fn same_addr(a: &Option<String>, b: &String) -> (r: bool)
    ensures
        r == (opt_view(*a) == Some(b@)),
{
    match a {
        Some(x) => eq_strings(x, b),
        None => false,
    }
}

/// Merges a poll into the cached state and returns the connection events
/// to broadcast.
pub fn merge_refresh(state: &mut DeviceState, snap: DeviceState, track: &mut LinkTrack, now: i64) -> (events: Vec<Event>)
    ensures
        *final(state) == merged(*old(state), snap, now),
        link_edge(*old(track), *final(state), *final(track), events@),
{
    let keep_caps = state.capabilities.model != Model::Unknown && snap.capabilities.model
        == Model::Unknown;
    let cached_caps = state.capabilities;
    let cached_settings = state.settings.duplicate();
    let mut m = snap;
    m.battery = state.battery;
    m.in_ear = state.in_ear;
    m.settings = cached_settings;
    if keep_caps {
        m.capabilities = cached_caps;
    }
    m.updated_at = now;
    *state = m;
    let mut events: Vec<Event> = Vec::new();
    match &state.address {
        Some(addr) => {
            if !same_addr(&track.prev_addr, addr) || state.connected != track.prev_connected {
                let had_addr = track.prev_addr.is_some();
                track.prev_addr = Some(addr.clone());
                track.prev_connected = state.connected;
                if state.connected {
                    let name = match &state.name {
                        Some(n) => n.clone(),
                        None => String::new(),
                    };
                    events.push(Event::Connected { name, address: addr.clone() });
                } else if had_addr {
                    events.push(Event::Disconnected);
                    assert(events@ =~= seq![Event::Disconnected]);
                }
            }
        },
        None => {
            if track.prev_addr.is_some() {
                track.prev_addr = None;
                track.prev_connected = false;
                events.push(Event::Disconnected);
                assert(events@ =~= seq![Event::Disconnected]);
            }
        },
    }
    events
}

/// What to do with the AAP link after a poll.
#[derive(Clone, Debug)]
pub enum AapStep {
    /// Open the link to this address.
    Start(String),
    /// Shut the running link down, then [`clear_link_state`].
    Stop,
    Keep,
}

/// Start the link when the device is connected and none runs; stop it
/// when the device is gone.
pub fn aap_step(running: bool, addr: &Option<String>, connected: bool) -> (s: AapStep)
    ensures
        match s {
            AapStep::Start(mac) => !running && connected && *addr == Some(mac),
            AapStep::Stop => running && !connected,
            AapStep::Keep => !(!running && connected && addr is Some) && !(running && !connected),
        },
{
    match addr {
        Some(mac) => {
            if connected && !running {
                return AapStep::Start(mac.clone());
            }
        },
        None => {},
    }
    if !connected && running {
        AapStep::Stop
    } else {
        AapStep::Keep
    }
}

/// Forgets what the link reported once it is down: the values are stale.
pub fn clear_link_state(state: &mut DeviceState, now: i64)
    ensures
        *final(state) == touched(
            DeviceState {
                battery: Battery::empty(),
                in_ear: InEar { primary: EarStatus::Unknown, secondary: EarStatus::Unknown },
                ..*old(state)
            },
            now,
        ),
{
    state.battery = Battery::default();
    state.in_ear = InEar::default();
    state.updated_at = now;
}

pub open spec fn no_new_msg() -> Seq<char> {
    "no new AirPods spotted — open the case until the LED blinks white."@
}

/// The device a `Pair` job pairs: the first one found that is not paired
/// yet.
pub fn pair_target(found: &Vec<DeviceSummary>) -> (r: Result<String, String>)
    ensures
        match r {
            Ok(a) => exists|i: int|
                0 <= i < found@.len() && !(#[trigger] found@[i]).paired && a == found@[i].address
                    && forall|j: int| 0 <= j < i ==> found@[j].paired,
            Err(e) => e@ == no_new_msg() && forall|i: int|
                0 <= i < found@.len() ==> (#[trigger] found@[i]).paired,
        },
{
    match crate::bluez::first_unpaired(found) {
        Some(i) => Ok(found[i].address.clone()),
        None => Err(owned("no new AirPods spotted — open the case until the LED blinks white.")),
    }
}

/// `s` without the character `c`.
pub open spec fn without_char(s: Seq<char>, c: char) -> Seq<char>
    decreases s.len(),
{
    if s.len() == 0 {
        s
    } else if s.last() == c {
        without_char(s.drop_last(), c)
    } else {
        without_char(s.drop_last(), c).push(s.last())
    }
}

/// The first six hex digits of a MAC (the vendor part), for thread names.
pub open spec fn short_mac_of(mac: Seq<char>) -> Seq<char> {
    let d = without_char(mac, ':');
    if d.len() <= 6 {
        d
    } else {
        d.take(6)
    }
}

pub fn short_mac(mac: &str) -> (r: String)
    ensures
        r@ == short_mac_of(mac@),
{
    let v = chars_of(mac);
    let mut out: Vec<char> = Vec::new();
    let mut i: usize = 0;
    while i < v.len()
        invariant
            i <= v.len(),
            out@ == without_char(v@.take(i as int), ':'),
        decreases v.len() - i,
    {
        assert(v@.take(i + 1).drop_last() == v@.take(i as int));
        if v[i] != ':' {
            out.push(v[i]);
        }
        i += 1;
    }
    assert(v@.take(v.len() as int) == v@);
    if out.len() <= 6 {
        string_of(&out)
    } else {
        let t = slice(&out, 0, 6);
        assert(t@ == out@.take(6));
        string_of(&t)
    }
}

/// A connection edge is announced once: merging a poll that shows the
/// same address and connection again announces nothing and leaves the
/// tracker as it was.
pub proof fn lemma_edge_announced_once(
    t: LinkTrack,
    m: DeviceState,
    t2: LinkTrack,
    ev: Seq<Event>,
    t3: LinkTrack,
    ev2: Seq<Event>,
)
    requires
        link_edge(t, m, t2, ev),
        link_edge(t2, m, t3, ev2),
    ensures
        ev2.len() == 0,
        t3 == t2,
{
}

} // verus!
