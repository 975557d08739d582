//! The CLI's plain-text output: the status report, the battery line, the
//! paired-device table and the event lines of `watch`. No colour, so it
//! stays pipeable into grep/awk. Each function returns the lines; the
//! caller prints them.

use vstd::prelude::*;

use crate::caps::Model;
use crate::model::{
    AudioState, Battery, BtState, ConvAwareness, DeviceInfo, DeviceState, EarStatus, Event, InEar,
    PairedDevice, PodSettings, PressCounts, PressKind, Profile, Side,
};
use crate::text::{
    chars_of, decimal, decimal_chars, push_char, join_strings, joined, opt_view, owned, push_chars, push_str,
    signed_decimal, signed_decimal_chars, strs_view,
};

verus! {

// ---------------------------------------------------------------------
// Text helpers
// ---------------------------------------------------------------------

pub open spec fn spaces(n: nat) -> Seq<char> {
    Seq::new(n, |i: int| ' ')
}

/// `format!("{:>w$}", s)`.
pub open spec fn pad_left(s: Seq<char>, w: nat) -> Seq<char> {
    if s.len() >= w {
        s
    } else {
        spaces((w - s.len()) as nat) + s
    }
}

/// `format!("{:<w$}", s)`.
pub open spec fn pad_right(s: Seq<char>, w: nat) -> Seq<char> {
    if s.len() >= w {
        s
    } else {
        s + spaces((w - s.len()) as nat)
    }
}

pub open spec fn on_off_text(b: bool) -> Seq<char> {
    if b {
        "on"@
    } else {
        "off"@
    }
}

pub fn on_off(b: bool) -> (r: &'static str)
    ensures
        r@ == on_off_text(b),
{
    if b {
        "on"
    } else {
        "off"
    }
}

fn push_spaces(s: &mut String, n: usize)
    ensures
        final(s)@ == old(s)@ + spaces(n as nat),
{
    let ghost s0 = s@;
    let mut i: usize = 0;
    while i < n
        invariant
            i <= n,
            s@ == s0 + spaces(i as nat),
        decreases n - i,
    {
        push_char(s, ' ');
        assert(spaces((i + 1) as nat) == spaces(i as nat).push(' '));
        i += 1;
    }
}

/// Appends `v` right-aligned in a field of `w` characters.
fn push_pad_left(s: &mut String, v: &Vec<char>, w: usize)
    ensures
        final(s)@ == old(s)@ + pad_left(v@, w as nat),
{
    if v.len() < w {
        push_spaces(s, w - v.len());
    }
    push_chars(s, v);
}

/// Appends `v` left-aligned in a field of `w` characters.
fn push_pad_right(s: &mut String, v: &Vec<char>, w: usize)
    ensures
        final(s)@ == old(s)@ + pad_right(v@, w as nat),
{
    push_chars(s, v);
    if v.len() < w {
        push_spaces(s, w - v.len());
    }
}

fn cat(a: &str, b: &str) -> (r: String)
    ensures
        r@ == a@ + b@,
{
    let mut r = owned(a);
    push_str(&mut r, b);
    r
}

fn emit(out: &mut Vec<String>, line: String)
    ensures
        strs_view(final(out)@) == strs_view(old(out)@).push(line@),
{
    out.push(line);
    assert(strs_view(out@) =~= strs_view(old(out)@).push(line@));
}

fn emit_str(out: &mut Vec<String>, line: &str)
    ensures
        strs_view(final(out)@) == strs_view(old(out)@).push(line@),
{
    emit(out, owned(line));
}

fn decimal_u64(n: u64) -> (r: String)
    ensures
        r@ == decimal(n as nat),
{
    let mut r = String::new();
    push_chars(&mut r, &decimal_chars(n));
    r
}

// ---------------------------------------------------------------------
// Battery
// ---------------------------------------------------------------------

/// One battery cell: `L  82% ⚡`, `R  79%  `, or `C  ---   `.
pub open spec fn cell_text(label: Seq<char>, val: Option<u8>, charging: bool) -> Seq<char> {
    match val {
        Some(v) => label + " "@ + pad_left(decimal(v as nat), 3) + "%"@ + (if charging {
            " ⚡"@
        } else {
            "  "@
        }),
        None => label + "  ---   "@,
    }
}

fn push_cell(s: &mut String, label: &str, val: Option<u8>, charging: bool)
    ensures
        final(s)@ == old(s)@ + cell_text(label@, val, charging),
{
    push_str(s, label);
    match val {
        Some(v) => {
            push_str(s, " ");
            push_pad_left(s, &decimal_chars(v as u64), 3);
            push_str(s, "%");
            push_str(
                s,
                if charging {
                    " ⚡"
                } else {
                    "  "
                },
            );
        },
        None => push_str(s, "  ---   "),
    }
}

/// The battery line of `status` and `battery`.
pub open spec fn battery_text(b: Battery, connected: bool) -> Seq<char> {
    if !connected && b.left is None && b.right is None && b.case is None {
        "battery — no data (disconnected)"@
    } else {
        "battery   "@ + cell_text("L"@, b.left, b.left_charging) + "   "@ + cell_text(
            "R"@,
            b.right,
            b.right_charging,
        ) + "   "@ + cell_text("C"@, b.case, b.case_charging)
    }
}

pub fn battery_line(b: &Battery, connected: bool) -> (r: String)
    ensures
        r@ == battery_text(*b, connected),
{
    if !connected && b.left.is_none() && b.right.is_none() && b.case.is_none() {
        return owned("battery — no data (disconnected)");
    }
    let mut s = owned("battery   ");
    push_cell(&mut s, "L", b.left, b.left_charging);
    push_str(&mut s, "   ");
    push_cell(&mut s, "R", b.right, b.right_charging);
    push_str(&mut s, "   ");
    push_cell(&mut s, "C", b.case, b.case_charging);
    s
}

// ---------------------------------------------------------------------
// In-ear
// ---------------------------------------------------------------------

/// The in-ear summary. AAP names the buds primary and secondary; they are
/// shown as L and R unless `no_lr` asks for the wire names.
pub open spec fn in_ear_text(e: InEar, no_lr: bool) -> Seq<char> {
    let a = if no_lr {
        "primary"@
    } else {
        "L"@
    };
    let b = if no_lr {
        "secondary"@
    } else {
        "R"@
    };
    if e.primary == EarStatus::InEar && e.secondary == EarStatus::InEar {
        "both in ear"@
    } else if e.primary == EarStatus::OutOfEar && e.secondary == EarStatus::OutOfEar {
        "both out of ear"@
    } else if e.primary == EarStatus::InCase && e.secondary == EarStatus::InCase {
        "both in case"@
    } else if e.primary == EarStatus::Unknown && e.secondary == EarStatus::Unknown {
        "—"@
    } else {
        a + " "@ + e.primary.label() + ",  "@ + b + " "@ + e.secondary.label()
    }
}

pub fn format_in_ear(e: &InEar, no_lr: bool) -> (r: String)
    ensures
        r@ == in_ear_text(*e, no_lr),
{
    if e.primary == EarStatus::InEar && e.secondary == EarStatus::InEar {
        owned("both in ear")
    } else if e.primary == EarStatus::OutOfEar && e.secondary == EarStatus::OutOfEar {
        owned("both out of ear")
    } else if e.primary == EarStatus::InCase && e.secondary == EarStatus::InCase {
        owned("both in case")
    } else if e.primary == EarStatus::Unknown && e.secondary == EarStatus::Unknown {
        owned("—")
    } else {
        let mut s = owned(
            if no_lr {
                "primary"
            } else {
                "L"
            },
        );
        push_str(&mut s, " ");
        push_str(&mut s, e.primary.as_str());
        push_str(&mut s, ",  ");
        push_str(
            &mut s,
            if no_lr {
                "secondary"
            } else {
                "R"
            },
        );
        push_str(&mut s, " ");
        push_str(&mut s, e.secondary.as_str());
        s
    }
}

// ---------------------------------------------------------------------
// The status report
// ---------------------------------------------------------------------

/// `prefix + x` as a line when `x` is there.
pub open spec fn opt_line(o: Option<Seq<char>>, prefix: Seq<char>) -> Seq<Seq<char>> {
    match o {
        Some(x) => seq![prefix + x],
        None => seq![],
    }
}

pub open spec fn or_text(o: Option<Seq<char>>, dflt: Seq<char>) -> Seq<char> {
    match o {
        Some(x) => x,
        None => dflt,
    }
}

/// A disconnected device: one line, plus the paired address if known.
pub open spec fn disconnected_lines(s: DeviceState) -> Seq<Seq<char>> {
    seq!["disconnected"@] + match opt_view(s.address) {
        Some(a) => seq![
            "  paired  "@ + a + match opt_view(s.name) {
                Some(n) => " ("@ + n + ")"@,
                None => seq![],
            },
        ],
        None => seq![],
    }
}

/// Name and model, then address, firmware and colour where known.
pub open spec fn header_lines(s: DeviceState) -> Seq<Seq<char>> {
    seq![or_text(opt_view(s.name), "AirPods"@) + "  —  "@ + s.capabilities.model.title()]
        + opt_line(opt_view(s.address), "  address       "@) + match opt_view(
        s.info.firmware_left,
    ) {
        Some(l) => seq![
            "  firmware      L "@ + l + " / R "@ + or_text(opt_view(s.info.firmware_right), "?"@)
                + match opt_view(s.info.firmware_case) {
                Some(c) => " / case "@ + c,
                None => seq![],
            },
        ],
        None => seq![],
    } + opt_line(opt_view(s.info.color), "  color         "@)
}

/// In-ear (when the model detects it) and the case lid.
pub open spec fn presence_lines(s: DeviceState, no_lr: bool) -> Seq<Seq<char>> {
    (if s.capabilities.has_in_ear_detection {
        seq![seq![], "  in-ear        "@ + in_ear_text(s.in_ear, no_lr)]
    } else {
        seq![]
    }) + match s.case_lid_open {
        Some(o) => seq![
            "  case lid      "@ + if o {
                "open"@
            } else {
                "closed"@
            },
        ],
        None => seq![],
    }
}

pub open spec fn opt_map_line<T>(o: Option<T>, prefix: Seq<char>, f: spec_fn(T) -> Seq<char>) -> Seq<Seq<char>> {
    match o {
        Some(x) => seq![prefix + f(x)],
        None => seq![],
    }
}

/// A blank line, then each setting the buds have reported.
pub open spec fn settings_lines(st: PodSettings) -> Seq<Seq<char>> {
    seq![seq![]] + listening_lines(st) + control_lines(st) + extra_lines(st)
}

/// Mode, conversation awareness, spatial audio.
pub open spec fn listening_lines(st: PodSettings) -> Seq<Seq<char>> {
    opt_map_line(st.mode, "  mode          "@, |m: crate::model::Mode| m.label()) + opt_map_line(
        st.conv_awareness,
        "  conv          "@,
        |c: ConvAwareness| on_off_text(c == ConvAwareness::On),
    ) + opt_map_line(
        st.spatial_audio,
        "  spatial       "@,
        |a: crate::model::SpatialAudio| a.label(),
    )
}

/// Ear detection, microphone, loud-sound reduction, press-and-hold.
pub open spec fn control_lines(st: PodSettings) -> Seq<Seq<char>> {
    opt_map_line(st.ear_detection, "  ear-detection "@, |b: bool| on_off_text(b)) + opt_map_line(
        st.mic_selection,
        "  mic           "@,
        |m: crate::model::MicSelection| m.label(),
    ) + opt_map_line(st.loud_sound_reduction, "  loud-reduce   "@, |b: bool| on_off_text(b))
        + match st.press_action_left {
        Some(l) => seq![
            "  press         L "@ + l.label() + " / R "@ + match st.press_action_right {
                Some(r) => r.label(),
                None => "?"@,
            },
        ],
        None => seq![],
    }
}

/// Press tone, one-bud ANC, chime volume, adaptive-ANC level.
pub open spec fn extra_lines(st: PodSettings) -> Seq<Seq<char>> {
    opt_map_line(st.tone_on_press, "  tone          "@, |b: bool| on_off_text(b)) + opt_map_line(
        st.one_bud_anc,
        "  one-bud-anc   "@,
        |b: bool| on_off_text(b),
    ) + opt_map_line(st.chime_volume, "  chime         "@, |v: u8| decimal(v as nat))
        + opt_map_line(st.auto_anc_level, "  auto-anc      "@, |v: u8| decimal(v as nat))
}

pub open spec fn profile_text(p: Profile) -> Seq<char> {
    match p {
        Profile::HighQuality => "high (a2dp_sink)"@,
        Profile::Headset => "headset"@,
        Profile::Off => "off"@,
    }
}

/// The audio section, left out while nothing is known.
pub open spec fn audio_lines(a: AudioState) -> Seq<Seq<char>> {
    if a.is_empty() {
        seq![]
    } else {
        seq![seq![], "  audio"@] + sink_lines(a) + card_lines(a)
    }
}

/// Volume, profile, codec.
pub open spec fn sink_lines(a: AudioState) -> Seq<Seq<char>> {
    (match a.volume_percent {
        Some(v) => seq![
            "    volume      "@ + decimal(v as nat) + "%"@ + if a.muted {
                "  (muted)"@
            } else {
                seq![]
            },
        ],
        None => seq![],
    }) + opt_map_line(a.profile, "    profile     "@, |p: Profile| profile_text(p)) + opt_line(
        opt_view(a.codec),
        "    codec       "@,
    )
}

/// Available codecs, default sink, latency offset.
pub open spec fn card_lines(a: AudioState) -> Seq<Seq<char>> {
    (if a.available_codecs@.len() > 0 {
        seq!["    available   "@ + joined(strs_view(a.available_codecs@), ", "@)]
    } else {
        seq![]
    }) + (if a.is_default_sink {
        seq!["    default     yes"@]
    } else {
        seq![]
    }) + (if a.latency_offset_ms != 0 {
        seq!["    latency     "@ + signed_decimal(a.latency_offset_ms as int) + " ms"@]
    } else {
        seq![]
    })
}

pub open spec fn bluetooth_lines(b: BtState) -> Seq<Seq<char>> {
    seq![seq![], "  bluetooth"@] + opt_map_line(
        b.rssi_dbm,
        "    rssi        "@,
        |r: i16| signed_decimal(r as int) + " dBm"@,
    ) + seq![
        "    paired      "@ + on_off_text(b.paired),
        "    trusted     "@ + on_off_text(b.trusted),
        "    auto-conn   "@ + on_off_text(b.auto_connect),
    ]
}

pub open spec fn any_press(pc: PressCounts) -> bool {
    pc.left_single > 0 || pc.left_double > 0 || pc.left_triple > 0 || pc.left_long > 0
        || pc.right_single > 0 || pc.right_double > 0 || pc.right_triple > 0 || pc.right_long > 0
}

pub open spec fn press_row(side: Seq<char>, single: u32, double: u32, triple: u32, long: u32) -> Seq<char> {
    "    "@ + side + "  1×"@ + decimal(single as nat) + "  2×"@ + decimal(double as nat) + "  3×"@
        + decimal(triple as nat) + "  hold "@ + decimal(long as nat)
}

pub open spec fn press_lines(pc: PressCounts) -> Seq<Seq<char>> {
    if any_press(pc) {
        seq![
            seq![],
            "  press counts"@,
            press_row("L"@, pc.left_single, pc.left_double, pc.left_triple, pc.left_long),
            press_row("R"@, pc.right_single, pc.right_double, pc.right_triple, pc.right_long),
        ]
    } else {
        seq![]
    }
}

/// `now.saturating_sub(t)` on `i64`.
pub open spec fn age_of(now: i64, t: i64) -> int {
    let d = now - t;
    if d < i64::MIN {
        i64::MIN as int
    } else if d > i64::MAX {
        i64::MAX as int
    } else {
        d
    }
}

pub open spec fn updated_lines(t: i64, now: i64) -> Seq<Seq<char>> {
    if t > 0 {
        seq![seq![], "  updated       "@ + signed_decimal(age_of(now, t)) + "s ago"@]
    } else {
        seq![]
    }
}

/// The full `status` report at time `now`.
pub open spec fn full_lines(s: DeviceState, no_lr: bool, now: i64) -> Seq<Seq<char>> {
    if !s.connected {
        disconnected_lines(s)
    } else {
        header_lines(s) + seq![seq![], battery_text(s.battery, true)] + presence_lines(s, no_lr)
            + settings_lines(s.settings) + audio_lines(s.audio) + bluetooth_lines(s.bluetooth)
            + press_lines(s.press_counts) + updated_lines(s.updated_at, now)
    }
}

/// What a state reply prints for `verb`: the battery line for the
/// battery verbs, the full report otherwise.
pub open spec fn state_lines(verb: Seq<char>, s: DeviceState, no_lr: bool, now: i64) -> Seq<Seq<char>> {
    if verb == "battery"@ || verb == "bat"@ || verb == "b"@ {
        seq![battery_text(s.battery, s.connected)]
    } else {
        full_lines(s, no_lr, now)
    }
}

fn emit_opt(out: &mut Vec<String>, prefix: &str, o: &Option<String>)
    ensures
        strs_view(final(out)@) == strs_view(old(out)@) + opt_line(opt_view(*o), prefix@),
{
    match o {
        Some(x) => {
            emit(out, cat(prefix, x.as_str()));
            assert(opt_line(opt_view(*o), prefix@) == seq![prefix@ + x@]);
        },
        None => {
            assert(strs_view(out@) =~= strs_view(old(out)@) + opt_line(opt_view(*o), prefix@));
        },
    }
}

fn disconnected_report(s: &DeviceState, out: &mut Vec<String>)
    ensures
        strs_view(final(out)@) == strs_view(old(out)@) + disconnected_lines(*s),
{
    let ghost o0 = strs_view(out@);
    emit_str(out, "disconnected");
    match &s.address {
        Some(a) => {
            let mut l = cat("  paired  ", a.as_str());
            match &s.name {
                Some(n) => {
                    push_str(&mut l, " (");
                    push_str(&mut l, n.as_str());
                    push_str(&mut l, ")");
                    assert(l@ =~= "  paired  "@ + a@ + (" ("@ + n@ + ")"@));
                },
                None => {
                    assert(l@ =~= "  paired  "@ + a@ + Seq::<char>::empty());
                },
            }
            emit(out, l);
            assert(disconnected_lines(*s) =~= seq!["disconnected"@, l@]);
        },
        None => {
            assert(disconnected_lines(*s) =~= seq!["disconnected"@]);
        },
    }
    assert(strs_view(out@) =~= o0 + disconnected_lines(*s));
}

fn header_report(s: &DeviceState, out: &mut Vec<String>)
    ensures
        strs_view(final(out)@) == strs_view(old(out)@) + header_lines(*s),
{
    let ghost o0 = strs_view(out@);
    let mut first = match &s.name {
        Some(n) => n.clone(),
        None => owned("AirPods"),
    };
    push_str(&mut first, "  —  ");
    push_str(&mut first, s.capabilities.model.label());
    assert(first@ == or_text(opt_view(s.name), "AirPods"@) + "  —  "@ + s.capabilities.model.title());
    emit(out, first);
    let ghost o1 = strs_view(out@);
    emit_opt(out, "  address       ", &s.address);
    let ghost o2 = strs_view(out@);
    match &s.info.firmware_left {
        Some(l) => {
            let mut line = cat("  firmware      L ", l.as_str());
            push_str(&mut line, " / R ");
            match &s.info.firmware_right {
                Some(r) => push_str(&mut line, r.as_str()),
                None => push_str(&mut line, "?"),
            }
            match &s.info.firmware_case {
                Some(c) => {
                    push_str(&mut line, " / case ");
                    push_str(&mut line, c.as_str());
                },
                None => {},
            }
            assert(line@ =~= "  firmware      L "@ + l@ + " / R "@ + or_text(
                opt_view(s.info.firmware_right),
                "?"@,
            ) + match opt_view(s.info.firmware_case) {
                Some(c) => " / case "@ + c,
                None => seq![],
            });
            emit(out, line);
        },
        None => {},
    }
    let ghost o3 = strs_view(out@);
    emit_opt(out, "  color         ", &s.info.color);
    assert(o1 == o0.push(or_text(opt_view(s.name), "AirPods"@) + "  —  "@ + s.capabilities.model.title()));
    assert(strs_view(out@) =~= o0 + header_lines(*s));
}

fn presence_report(s: &DeviceState, no_lr: bool, out: &mut Vec<String>)
    ensures
        strs_view(final(out)@) == strs_view(old(out)@) + presence_lines(*s, no_lr),
{
    let ghost o0 = strs_view(out@);
    if s.capabilities.has_in_ear_detection {
        emit(out, String::new());
        emit(out, cat("  in-ear        ", format_in_ear(&s.in_ear, no_lr).as_str()));
    }
    match s.case_lid_open {
        Some(o) => emit(
            out,
            cat(
                "  case lid      ",
                if o {
                    "open"
                } else {
                    "closed"
                },
            ),
        ),
        None => {},
    }
    assert(strs_view(out@) =~= o0 + presence_lines(*s, no_lr));
}

fn emit_switch(out: &mut Vec<String>, prefix: &str, o: Option<bool>)
    ensures
        strs_view(final(out)@) == strs_view(old(out)@) + opt_map_line(
            o,
            prefix@,
            |b: bool| on_off_text(b),
        ),
{
    match o {
        Some(b) => emit(out, cat(prefix, on_off(b))),
        None => {},
    }
    assert(strs_view(final(out)@) =~= strs_view(old(out)@) + opt_map_line(
        o,
        prefix@,
        |b: bool| on_off_text(b),
    ));
}

fn emit_level(out: &mut Vec<String>, prefix: &str, o: Option<u8>)
    ensures
        strs_view(final(out)@) == strs_view(old(out)@) + opt_map_line(
            o,
            prefix@,
            |v: u8| decimal(v as nat),
        ),
{
    match o {
        Some(v) => emit(out, cat(prefix, decimal_u64(v as u64).as_str())),
        None => {},
    }
    assert(strs_view(final(out)@) =~= strs_view(old(out)@) + opt_map_line(
        o,
        prefix@,
        |v: u8| decimal(v as nat),
    ));
}

fn listening_report(st: &PodSettings, out: &mut Vec<String>)
    ensures
        strs_view(final(out)@) == strs_view(old(out)@) + listening_lines(*st),
{
    let ghost o0 = strs_view(out@);
    match st.mode {
        Some(m) => emit(out, cat("  mode          ", m.as_str())),
        None => {},
    }
    let ghost o1 = strs_view(out@);
    match st.conv_awareness {
        Some(c) => emit(out, cat("  conv          ", on_off(c == ConvAwareness::On))),
        None => {},
    }
    let ghost o2 = strs_view(out@);
    match st.spatial_audio {
        Some(a) => emit(out, cat("  spatial       ", a.as_str())),
        None => {},
    }
    assert(o1 =~= o0 + opt_map_line(st.mode, "  mode          "@, |m: crate::model::Mode| m.label()));
    assert(o2 =~= o1 + opt_map_line(
        st.conv_awareness,
        "  conv          "@,
        |c: ConvAwareness| on_off_text(c == ConvAwareness::On),
    ));
    assert(strs_view(out@) =~= o2 + opt_map_line(
        st.spatial_audio,
        "  spatial       "@,
        |a: crate::model::SpatialAudio| a.label(),
    ));
    assert(strs_view(out@) =~= o0 + listening_lines(*st));
}

fn control_report(st: &PodSettings, out: &mut Vec<String>)
    ensures
        strs_view(final(out)@) == strs_view(old(out)@) + control_lines(*st),
{
    let ghost o0 = strs_view(out@);
    emit_switch(out, "  ear-detection ", st.ear_detection);
    let ghost o1 = strs_view(out@);
    match st.mic_selection {
        Some(m) => emit(out, cat("  mic           ", m.as_str())),
        None => {},
    }
    let ghost o2 = strs_view(out@);
    emit_switch(out, "  loud-reduce   ", st.loud_sound_reduction);
    let ghost o3 = strs_view(out@);
    match st.press_action_left {
        Some(l) => {
            let mut line = cat("  press         L ", l.as_str());
            push_str(&mut line, " / R ");
            match st.press_action_right {
                Some(r) => push_str(&mut line, r.as_str()),
                None => push_str(&mut line, "?"),
            }
            emit(out, line);
        },
        None => {},
    }
    assert(o2 =~= o1 + opt_map_line(
        st.mic_selection,
        "  mic           "@,
        |m: crate::model::MicSelection| m.label(),
    ));
    assert(strs_view(out@) =~= o3 + match st.press_action_left {
        Some(l) => seq![
            "  press         L "@ + l.label() + " / R "@ + match st.press_action_right {
                Some(r) => r.label(),
                None => "?"@,
            },
        ],
        None => seq![],
    });
    assert(strs_view(out@) =~= o0 + control_lines(*st));
}

fn extra_report(st: &PodSettings, out: &mut Vec<String>)
    ensures
        strs_view(final(out)@) == strs_view(old(out)@) + extra_lines(*st),
{
    let ghost o0 = strs_view(out@);
    emit_switch(out, "  tone          ", st.tone_on_press);
    emit_switch(out, "  one-bud-anc   ", st.one_bud_anc);
    emit_level(out, "  chime         ", st.chime_volume);
    emit_level(out, "  auto-anc      ", st.auto_anc_level);
    assert(strs_view(out@) =~= o0 + extra_lines(*st));
}

fn settings_report(st: &PodSettings, out: &mut Vec<String>)
    ensures
        strs_view(final(out)@) == strs_view(old(out)@) + settings_lines(*st),
{
    let ghost o0 = strs_view(out@);
    emit(out, String::new());
    listening_report(st, out);
    control_report(st, out);
    extra_report(st, out);
    assert(strs_view(out@) =~= o0 + settings_lines(*st));
}

fn sink_report(a: &AudioState, out: &mut Vec<String>)
    ensures
        strs_view(final(out)@) == strs_view(old(out)@) + sink_lines(*a),
{
    let ghost o0 = strs_view(out@);
    match a.volume_percent {
        Some(v) => {
            let mut line = cat("    volume      ", decimal_u64(v as u64).as_str());
            push_str(&mut line, "%");
            if a.muted {
                push_str(&mut line, "  (muted)");
            } else {
                assert(line@ =~= line@ + Seq::<char>::empty());
            }
            emit(out, line);
        },
        None => {},
    }
    let ghost o1 = strs_view(out@);
    match a.profile {
        Some(p) => {
            let t = match p {
                Profile::HighQuality => "high (a2dp_sink)",
                Profile::Headset => "headset",
                Profile::Off => "off",
            };
            emit(out, cat("    profile     ", t));
        },
        None => {},
    }
    let ghost o2 = strs_view(out@);
    emit_opt(out, "    codec       ", &a.codec);
    assert(o2 =~= o1 + opt_map_line(a.profile, "    profile     "@, |p: Profile| profile_text(p)));
    assert(strs_view(out@) =~= o0 + sink_lines(*a));
}

fn card_report(a: &AudioState, out: &mut Vec<String>)
    ensures
        strs_view(final(out)@) == strs_view(old(out)@) + card_lines(*a),
{
    let ghost o0 = strs_view(out@);
    if a.available_codecs.len() > 0 {
        let j = join_strings(&a.available_codecs, ", ");
        emit(out, cat("    available   ", j.as_str()));
    }
    let ghost o1 = strs_view(out@);
    if a.is_default_sink {
        emit_str(out, "    default     yes");
    }
    let ghost o2 = strs_view(out@);
    if a.latency_offset_ms != 0 {
        let mut line = owned("    latency     ");
        push_chars(&mut line, &signed_decimal_chars(a.latency_offset_ms as i64));
        push_str(&mut line, " ms");
        emit(out, line);
    }
    assert(strs_view(out@) =~= o0 + card_lines(*a));
}

fn audio_report(a: &AudioState, out: &mut Vec<String>)
    ensures
        strs_view(final(out)@) == strs_view(old(out)@) + audio_lines(*a),
{
    let ghost o0 = strs_view(out@);
    if a.volume_percent.is_none() && !a.muted && a.profile.is_none() && a.codec.is_none()
        && a.available_codecs.len() == 0 && !a.is_default_sink && a.latency_offset_ms == 0 {
        assert(strs_view(out@) =~= o0 + audio_lines(*a));
        return;
    }
    emit(out, String::new());
    emit_str(out, "  audio");
    let ghost o1 = strs_view(out@);
    sink_report(a, out);
    card_report(a, out);
    assert(o1 =~= o0 + seq![Seq::<char>::empty(), "  audio"@]);
    assert(strs_view(out@) =~= o0 + audio_lines(*a));
}

fn bluetooth_report(b: &BtState, out: &mut Vec<String>)
    ensures
        strs_view(final(out)@) == strs_view(old(out)@) + bluetooth_lines(*b),
{
    let ghost o0 = strs_view(out@);
    emit(out, String::new());
    emit_str(out, "  bluetooth");
    let ghost o1 = strs_view(out@);
    match b.rssi_dbm {
        Some(r) => {
            let mut line = owned("    rssi        ");
            push_chars(&mut line, &signed_decimal_chars(r as i64));
            push_str(&mut line, " dBm");
            assert(line@ =~= "    rssi        "@ + (signed_decimal(r as int) + " dBm"@));
            emit(out, line);
        },
        None => {},
    }
    let ghost o2 = strs_view(out@);
    emit(out, cat("    paired      ", on_off(b.paired)));
    emit(out, cat("    trusted     ", on_off(b.trusted)));
    emit(out, cat("    auto-conn   ", on_off(b.auto_connect)));
    proof {
        assert(o1 == o0 + seq![Seq::<char>::empty(), "  bluetooth"@]);
        assert(o2 =~= o1 + opt_map_line(
            b.rssi_dbm,
            "    rssi        "@,
            |r: i16| signed_decimal(r as int) + " dBm"@,
        ));
    }
    assert(strs_view(out@) =~= o0 + bluetooth_lines(*b));
}

fn press_row_text(side: &str, a: u32, b: u32, c: u32, d: u32) -> (r: String)
    ensures
        r@ == press_row(side@, a, b, c, d),
{
    let mut l = cat("    ", side);
    push_str(&mut l, "  1×");
    push_chars(&mut l, &decimal_chars(a as u64));
    push_str(&mut l, "  2×");
    push_chars(&mut l, &decimal_chars(b as u64));
    push_str(&mut l, "  3×");
    push_chars(&mut l, &decimal_chars(c as u64));
    push_str(&mut l, "  hold ");
    push_chars(&mut l, &decimal_chars(d as u64));
    l
}

fn press_report(pc: &PressCounts, out: &mut Vec<String>)
    ensures
        strs_view(final(out)@) == strs_view(old(out)@) + press_lines(*pc),
{
    let ghost o0 = strs_view(out@);
    let any = pc.left_single > 0 || pc.left_double > 0 || pc.left_triple > 0 || pc.left_long > 0
        || pc.right_single > 0 || pc.right_double > 0 || pc.right_triple > 0 || pc.right_long > 0;
    if any {
        emit(out, String::new());
        emit_str(out, "  press counts");
        emit(out, press_row_text("L", pc.left_single, pc.left_double, pc.left_triple, pc.left_long));
        emit(
            out,
            press_row_text("R", pc.right_single, pc.right_double, pc.right_triple, pc.right_long),
        );
    }
    assert(strs_view(out@) =~= o0 + press_lines(*pc));
}

fn updated_report(t: i64, now: i64, out: &mut Vec<String>)
    ensures
        strs_view(final(out)@) == strs_view(old(out)@) + updated_lines(t, now),
{
    let ghost o0 = strs_view(out@);
    if t > 0 {
        let d: i128 = now as i128 - t as i128;
        let age: i64 = if d < i64::MIN as i128 {
            i64::MIN
        } else if d > i64::MAX as i128 {
            i64::MAX
        } else {
            d as i64
        };
        emit(out, String::new());
        let mut line = owned("  updated       ");
        push_chars(&mut line, &signed_decimal_chars(age));
        push_str(&mut line, "s ago");
        emit(out, line);
    }
    assert(strs_view(out@) =~= o0 + updated_lines(t, now));
}

/// The full `status` report at time `now` (seconds since the epoch).
pub fn full_report(s: &DeviceState, no_lr: bool, now: i64) -> (lines: Vec<String>)
    ensures
        strs_view(lines@) == full_lines(*s, no_lr, now),
{
    let mut out: Vec<String> = Vec::new();
    if !s.connected {
        disconnected_report(s, &mut out);
        assert(strs_view(out@) =~= full_lines(*s, no_lr, now));
        return out;
    }
    let ghost e = strs_view(out@);
    header_report(s, &mut out);
    let ghost o1 = strs_view(out@);
    emit(&mut out, String::new());
    emit(&mut out, battery_line(&s.battery, true));
    let ghost o2 = strs_view(out@);
    presence_report(s, no_lr, &mut out);
    settings_report(&s.settings, &mut out);
    audio_report(&s.audio, &mut out);
    bluetooth_report(&s.bluetooth, &mut out);
    press_report(&s.press_counts, &mut out);
    updated_report(s.updated_at, now, &mut out);
    proof {
        assert(e =~= Seq::<Seq<char>>::empty());
        assert(o2 =~= o1 + seq![Seq::<char>::empty(), battery_text(s.battery, true)]);
    }
    assert(strs_view(out@) =~= full_lines(*s, no_lr, now));
    out
}

/// The lines a state reply prints for `verb`.
pub fn print_state(verb: &str, s: &DeviceState, no_lr: bool, now: i64) -> (lines: Vec<String>)
    ensures
        strs_view(lines@) == state_lines(verb@, *s, no_lr, now),
{
    let v = chars_of(verb);
    if crate::text::eq_str(&v, "battery") || crate::text::eq_str(&v, "bat") || crate::text::eq_str(
        &v,
        "b",
    ) {
        let mut out: Vec<String> = Vec::new();
        emit(&mut out, battery_line(&s.battery, s.connected));
        assert(strs_view(out@) =~= seq![battery_text(s.battery, s.connected)]);
        out
    } else {
        full_report(s, no_lr, now)
    }
}

// ---------------------------------------------------------------------
// `list`, `watch` and short replies
// ---------------------------------------------------------------------

pub open spec fn rule_text() -> Seq<char> {
    Seq::new(86, |i: int| '─')
}

/// One row of the paired-device table.
pub open spec fn row_text(a: Seq<char>, n: Seq<char>, m: Seq<char>, st: Seq<char>, t: Seq<char>) -> Seq<char> {
    pad_right(a, 18) + "  "@ + pad_right(n, 24) + "  "@ + pad_right(m, 22) + "  "@ + pad_right(st, 10)
        + "  "@ + t
}

pub open spec fn device_row(d: PairedDevice) -> Seq<char> {
    row_text(
        d.address@,
        d.name@,
        or_text(opt_view(d.model), "?"@),
        if d.connected {
            "connected"@
        } else {
            "offline"@
        },
        if d.trusted {
            "yes"@
        } else {
            "no"@
        },
    )
}

/// The `list` table: a header, a rule, one row per device.
pub open spec fn list_lines(items: Seq<PairedDevice>) -> Seq<Seq<char>> {
    if items.len() == 0 {
        seq!["no paired AirPods on this adapter."@]
    } else {
        seq![row_text("address"@, "name"@, "model"@, "state"@, "trusted"@), rule_text()]
            + items.map_values(|d: PairedDevice| device_row(d))
    }
}

fn row_string(a: &str, n: &str, m: &str, st: &str, t: &str) -> (r: String)
    ensures
        r@ == row_text(a@, n@, m@, st@, t@),
{
    let mut r = String::new();
    push_pad_right(&mut r, &chars_of(a), 18);
    push_str(&mut r, "  ");
    push_pad_right(&mut r, &chars_of(n), 24);
    push_str(&mut r, "  ");
    push_pad_right(&mut r, &chars_of(m), 22);
    push_str(&mut r, "  ");
    push_pad_right(&mut r, &chars_of(st), 10);
    push_str(&mut r, "  ");
    push_str(&mut r, t);
    assert(r@ =~= row_text(a@, n@, m@, st@, t@));
    r
}

pub fn list_report(items: &Vec<PairedDevice>) -> (lines: Vec<String>)
    ensures
        strs_view(lines@) == list_lines(items@),
{
    let mut out: Vec<String> = Vec::new();
    if items.len() == 0 {
        emit_str(&mut out, "no paired AirPods on this adapter.");
        assert(strs_view(out@) =~= list_lines(items@));
        return out;
    }
    emit(&mut out, row_string("address", "name", "model", "state", "trusted"));
    let mut rule = String::new();
    let mut k: usize = 0;
    while k < 86
        invariant
            k <= 86,
            rule@ == Seq::new(k as nat, |i: int| '─'),
        decreases 86 - k,
    {
        push_char(&mut rule, '─');
        assert(rule@ =~= Seq::new((k + 1) as nat, |i: int| '─'));
        k += 1;
    }
    emit(&mut out, rule);
    let ghost head = strs_view(out@);
    let mut i: usize = 0;
    while i < items.len()
        invariant
            i <= items.len(),
            strs_view(out@) == head + items@.take(i as int).map_values(|d: PairedDevice| device_row(d)),
        decreases items.len() - i,
    {
        let d = &items[i];
        let model = match &d.model {
            Some(m) => m.as_str(),
            None => "?",
        };
        let row = row_string(
            d.address.as_str(),
            d.name.as_str(),
            model,
            if d.connected {
                "connected"
            } else {
                "offline"
            },
            if d.trusted {
                "yes"
            } else {
                "no"
            },
        );
        assert(row@ == device_row(items@[i as int]));
        emit(&mut out, row);
        assert(items@.take(i + 1).map_values(|d: PairedDevice| device_row(d)) =~= items@.take(
            i as int,
        ).map_values(|d: PairedDevice| device_row(d)).push(device_row(items@[i as int])));
        i += 1;
    }
    assert(items@.take(items.len() as int) == items@);
    assert(strs_view(out@) =~= list_lines(items@));
    out
}

/// A battery level in an event line: `82%`, or `—` when unknown.
pub open spec fn level_text(o: Option<u8>) -> Seq<char> {
    match o {
        Some(v) => decimal(v as nat) + "%"@,
        None => "—"@,
    }
}

fn push_level(s: &mut String, o: Option<u8>)
    ensures
        final(s)@ == old(s)@ + level_text(o),
{
    match o {
        Some(v) => {
            push_chars(s, &decimal_chars(v as u64));
            push_str(s, "%");
        },
        None => push_str(s, "—"),
    }
}

pub open spec fn press_kind_text(k: PressKind) -> Seq<char> {
    match k {
        PressKind::Single => "single"@,
        PressKind::Double => "double"@,
        PressKind::Triple => "triple"@,
        PressKind::Long => "long"@,
    }
}

/// The line `watch` prints for an event; `ShowPopup` prints nothing.
pub open spec fn event_text(e: Event, no_lr: bool) -> Option<Seq<char>> {
    match e {
        Event::Connected { name, address } => Some(
            "connected     "@ + name@ + "  ("@ + address@ + ")"@,
        ),
        Event::Disconnected => Some("disconnected"@),
        Event::Battery(b) => Some(
            "battery       L "@ + level_text(b.left) + "  R "@ + level_text(b.right) + "  C "@
                + level_text(b.case),
        ),
        Event::InEar(i) => Some("in-ear        "@ + in_ear_text(i, no_lr)),
        Event::CaseLid { open } => Some(
            "case lid      "@ + if open {
                "open"@
            } else {
                "closed"@
            },
        ),
        Event::Mode(m) => Some("mode          "@ + m.label()),
        Event::ConvAwareness(c) => Some("conv          "@ + on_off_text(c == ConvAwareness::On)),
        Event::Press { side, kind } => Some(
            "press         "@ + (match side {
                Side::Left => "L"@,
                Side::Right => "R"@,
            }) + " "@ + press_kind_text(kind),
        ),
        Event::SettingsChanged => Some("settings      changed (re-run 'podctl status')"@),
        Event::ShowPopup => None,
    }
}

pub fn event_line(e: &Event, no_lr: bool) -> (r: Option<String>)
    ensures
        match r {
            Some(l) => event_text(*e, no_lr) == Some(l@),
            None => event_text(*e, no_lr) is None,
        },
{
    match e {
        Event::Connected { name, address } => {
            let mut l = cat("connected     ", name.as_str());
            push_str(&mut l, "  (");
            push_str(&mut l, address.as_str());
            push_str(&mut l, ")");
            Some(l)
        },
        Event::Disconnected => Some(owned("disconnected")),
        Event::Battery(b) => {
            let mut l = owned("battery       L ");
            push_level(&mut l, b.left);
            push_str(&mut l, "  R ");
            push_level(&mut l, b.right);
            push_str(&mut l, "  C ");
            push_level(&mut l, b.case);
            Some(l)
        },
        Event::InEar(i) => Some(cat("in-ear        ", format_in_ear(i, no_lr).as_str())),
        Event::CaseLid { open } => Some(
            cat(
                "case lid      ",
                if *open {
                    "open"
                } else {
                    "closed"
                },
            ),
        ),
        Event::Mode(m) => Some(cat("mode          ", m.as_str())),
        Event::ConvAwareness(c) => Some(cat("conv          ", on_off(*c == ConvAwareness::On))),
        Event::Press { side, kind } => {
            let mut l = owned("press         ");
            push_str(
                &mut l,
                match side {
                    Side::Left => "L",
                    Side::Right => "R",
                },
            );
            push_str(&mut l, " ");
            push_str(
                &mut l,
                match kind {
                    PressKind::Single => "single",
                    PressKind::Double => "double",
                    PressKind::Triple => "triple",
                    PressKind::Long => "long",
                },
            );
            Some(l)
        },
        Event::SettingsChanged => Some(owned("settings      changed (re-run 'podctl status')")),
        Event::ShowPopup => None,
    }
}

/// What a single-shot command prints on stdout for a reply that is
/// neither a state nor a list: `pong`, `ok`, or `ok (pending: …)`.
pub open spec fn short_reply_text(r: crate::ipc::Response) -> Option<Seq<char>> {
    match r {
        crate::ipc::Response::Pong => Some("pong"@),
        crate::ipc::Response::Done => Some("ok"@),
        crate::ipc::Response::Pending(reason) => Some("ok (pending: "@ + reason@ + ")"@),
        _ => None,
    }
}

pub fn short_reply(r: &crate::ipc::Response) -> (l: Option<String>)
    ensures
        match l {
            Some(x) => short_reply_text(*r) == Some(x@),
            None => short_reply_text(*r) is None,
        },
{
    match r {
        crate::ipc::Response::Pong => Some(owned("pong")),
        crate::ipc::Response::Done => Some(owned("ok")),
        crate::ipc::Response::Pending(reason) => {
            let mut l = cat("ok (pending: ", reason.as_str());
            push_str(&mut l, ")");
            Some(l)
        },
        _ => None,
    }
}

} // verus!
