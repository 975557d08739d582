//! `podctl debug`: the diagnostic report, and how it masks what could
//! identify the user (device addresses, custom names, the home
//! directory) unless asked not to.

use vstd::prelude::*;

use crate::text::{
    chars_of, eq_str, index_of, joined, lower, lower_chars, owned, push_chars, push_str, slice,
    split, split_chars, starts_with, strip_prefix, views,
};

verus! {

pub open spec fn yes_no(b: bool) -> Seq<char> {
    if b {
        "yes"@
    } else {
        "no"@
    }
}

pub fn yesno(b: bool) -> (r: &'static str)
    ensures
        r@ == yes_no(b),
{
    if b {
        "yes"
    } else {
        "no"
    }
}

/// A section heading: a blank line, then `[name]`.
pub open spec fn section_lines(name: Seq<char>) -> Seq<Seq<char>> {
    seq![seq![], "["@ + name + "]"@]
}

pub fn section(out: &mut Vec<String>, name: &str)
    ensures
        crate::text::strs_view(final(out)@) == crate::text::strs_view(old(out)@) + section_lines(
            name@,
        ),
{
    let ghost o0 = crate::text::strs_view(out@);
    out.push(String::new());
    let mut h = owned("[");
    push_str(&mut h, name);
    push_str(&mut h, "]");
    out.push(h);
    assert(crate::text::strs_view(out@) =~= o0 + section_lines(name@));
}

/// A MAC with the device-unique half masked: `AA:BB:CC:**:**:**` (the
/// Apple vendor part stays); anything that is not six fields becomes
/// `<mac>`.
pub open spec fn masked_mac(mac: Seq<char>, no_redact: bool) -> Seq<char> {
    if no_redact {
        mac
    } else {
        let p = split(mac, ':');
        if p.len() == 6 {
            p[0] + ":"@ + p[1] + ":"@ + p[2] + ":**:**:**"@
        } else {
            "<mac>"@
        }
    }
}

pub fn redact_mac(mac: &str, no_redact: bool) -> (r: String)
    ensures
        r@ == masked_mac(mac@, no_redact),
{
    if no_redact {
        return owned(mac);
    }
    let p = split_chars(&chars_of(mac), ':');
    if p.len() != 6 {
        return owned("<mac>");
    }
    let mut r = String::new();
    push_chars(&mut r, &p[0]);
    push_str(&mut r, ":");
    push_chars(&mut r, &p[1]);
    push_str(&mut r, ":");
    push_chars(&mut r, &p[2]);
    push_str(&mut r, ":**:**:**");
    assert(r@ =~= views(p@)[0] + ":"@ + views(p@)[1] + ":"@ + views(p@)[2] + ":**:**:**"@);
    r
}

/// Apple's default names pass (any ASCII case); anything custom is
/// masked.
pub open spec fn default_name(n: Seq<char>) -> bool {
    let l = lower(n);
    l == lower("AirPods"@) || l == lower("AirPods Pro"@) || l == lower("AirPods Pro 2"@) || l
        == lower("AirPods Pro (2nd gen)"@) || l == lower("AirPods 2"@) || l == lower("AirPods 3"@)
        || l == lower("AirPods 4"@) || l == lower("AirPods Max"@)
}

pub open spec fn masked_name(name: Seq<char>, no_redact: bool) -> Seq<char> {
    if no_redact || default_name(name) {
        name
    } else {
        "<custom name redacted>"@
    }
}

fn lower_is(l: &Vec<char>, x: &str) -> (b: bool)
    ensures
        b == (l@ == lower(x@)),
{
    crate::text::eq_chars(l, &lower_chars(&chars_of(x)))
}

pub fn redact_name(name: &str, no_redact: bool) -> (r: String)
    ensures
        r@ == masked_name(name@, no_redact),
{
    if no_redact {
        return owned(name);
    }
    let l = lower_chars(&chars_of(name));
    if lower_is(&l, "AirPods") || lower_is(&l, "AirPods Pro") || lower_is(&l, "AirPods Pro 2")
        || lower_is(&l, "AirPods Pro (2nd gen)") || lower_is(&l, "AirPods 2") || lower_is(
        &l,
        "AirPods 3",
    ) || lower_is(&l, "AirPods 4") || lower_is(&l, "AirPods Max") {
        owned(name)
    } else {
        owned("<custom name redacted>")
    }
}

/// A PipeWire node with the address masked:
/// `bluez_output.AA_BB_CC_DD_EE_FF.1` becomes
/// `bluez_output.AA_BB_CC_**_**_**.1`. Other names, and nodes whose
/// address is not six fields, pass unchanged.
pub open spec fn masked_node(node: Seq<char>, no_redact: bool) -> Seq<char> {
    if no_redact {
        node
    } else {
        let prefix = if starts_with(node, "bluez_output."@) {
            "bluez_output."@
        } else {
            "bluez_card."@
        };
        if !starts_with(node, "bluez_output."@) && !starts_with(node, "bluez_card."@) {
            node
        } else {
            let body = node.skip(prefix.len() as int);
            let d = index_of(body, '.');
            let mac = if d >= 0 {
                body.take(d)
            } else {
                body
            };
            let p = split(mac, '_');
            if p.len() != 6 {
                node
            } else {
                let masked = p[0] + "_"@ + p[1] + "_"@ + p[2] + "_**_**_**"@;
                if d >= 0 {
                    prefix + masked + "."@ + body.skip(d + 1)
                } else {
                    prefix + masked
                }
            }
        }
    }
}

pub fn redact_node(node: &str, no_redact: bool) -> (r: String)
    ensures
        r@ == masked_node(node@, no_redact),
{
    if no_redact {
        return owned(node);
    }
    let v = chars_of(node);
    let (prefix, body) = match strip_prefix(&v, "bluez_output.") {
        Some(b) => ("bluez_output.", b),
        None => match strip_prefix(&v, "bluez_card.") {
            Some(b) => ("bluez_card.", b),
            None => {
                return owned(node);
            },
        },
    };
    proof {
        crate::text::lemma_index_of(body@, '.');
    }
    let dot = crate::text::find(&body, '.');
    let mac = match dot {
        Some(d) => slice(&body, 0, d),
        None => slice(&body, 0, body.len()),
    };
    assert(dot is None ==> mac@ =~= body@);
    let p = split_chars(&mac, '_');
    if p.len() != 6 {
        return owned(node);
    }
    let mut r = owned(prefix);
    push_chars(&mut r, &p[0]);
    push_str(&mut r, "_");
    push_chars(&mut r, &p[1]);
    push_str(&mut r, "_");
    push_chars(&mut r, &p[2]);
    push_str(&mut r, "_**_**_**");
    let ghost masked = views(p@)[0] + "_"@ + views(p@)[1] + "_"@ + views(p@)[2] + "_**_**_**"@;
    assert(r@ =~= prefix@ + masked);
    match dot {
        Some(d) => {
            push_str(&mut r, ".");
            push_chars(&mut r, &slice(&body, d + 1, body.len()));
            assert(r@ =~= prefix@ + masked + "."@ + body@.skip(d + 1));
        },
        None => {},
    }
    r
}

/// A path with the home directory shown as `~` and the user id in
/// `/run/user/<uid>` masked.
pub open spec fn masked_path(p: Seq<char>, home: Option<Seq<char>>, no_redact: bool) -> Seq<char> {
    if no_redact {
        p
    } else if home matches Some(h) && starts_with(p, h) {
        "~"@ + p.skip(home.unwrap().len() as int)
    } else if starts_with(p, "/run/user/"@) {
        let rest = p.skip(10);
        let k = index_of(rest, '/');
        if k >= 0 {
            "/run/user/<uid>"@ + rest.skip(k)
        } else {
            "/run/user/<uid>"@
        }
    } else {
        p
    }
}

/// `home` is the value of `HOME`, if set.
pub fn redact_path(p: &str, home: Option<&str>, no_redact: bool) -> (r: String)
    ensures
        r@ == masked_path(
            p@,
            match home {
                Some(h) => Some(h@),
                None => None,
            },
            no_redact,
        ),
{
    if no_redact {
        return owned(p);
    }
    let v = chars_of(p);
    if let Some(h) = home {
        if let Some(rest) = strip_prefix(&v, h) {
            let mut r = owned("~");
            push_chars(&mut r, &rest);
            return r;
        }
    }
    match strip_prefix(&v, "/run/user/") {
        Some(rest) => {
            proof {
                crate::text::lemma_index_of(rest@, '/');
                reveal_strlit("/run/user/");
            }
            assert(rest@ == v@.skip(10));
            match crate::text::find(&rest, '/') {
                Some(k) => {
                    let mut r = owned("/run/user/<uid>");
                    push_chars(&mut r, &slice(&rest, k, rest.len()));
                    assert(rest@.subrange(k as int, rest@.len() as int) =~= rest@.skip(k as int));
                    r
                },
                None => owned("/run/user/<uid>"),
            }
        },
        None => owned(p),
    }
}

// ---------------------------------------------------------------------
// The report
// ---------------------------------------------------------------------

/// What `podctl debug` gathers from the system before it writes the
/// report. Tool and service fields hold the text already reduced to
/// what is shown (a version line, `(installed)`, `?`, ...).
pub struct DebugFacts {
    pub version: String,
    pub debug_build: bool,
    pub os: String,
    pub kernel: String,
    pub arch: String,
    pub desktop: Option<String>,
    pub session: Option<String>,
    pub pactl: String,
    pub wpctl: String,
    pub bluetoothctl: String,
    pub bluez_daemon: String,
    pub socket: String,
    /// `HOME`, used to shorten the socket path.
    pub home: Option<String>,
    pub socket_exists: bool,
    pub reachable: bool,
    pub device: Option<crate::bluez::DeviceSummary>,
    pub paired_count: usize,
    pub sink: Option<crate::audio::SinkInfo>,
    pub card: Option<crate::audio::CardInfo>,
    pub volume: Option<u8>,
    pub muted: bool,
    pub runtime_dir_set: bool,
    pub config_home_set: bool,
    pub rust_log: Option<String>,
}

pub open spec fn or_q(o: Option<String>, d: Seq<char>) -> Seq<char> {
    match o {
        Some(x) => x@,
        None => d,
    }
}

pub open spec fn head_lines(no_redact: bool) -> Seq<Seq<char>> {
    seq![
        "=== podctl debug report ==="@,
        "redacted: "@ + if no_redact {
            "no (LOCAL ONLY, do not paste)"@
        } else {
            "yes"@
        },
        seq![],
    ]
}

pub open spec fn build_lines(f: DebugFacts) -> Seq<Seq<char>> {
    section_lines("podctl"@) + seq![
        "  version       "@ + f.version@,
        "  license       MIT OR Apache-2.0"@,
        "  profile       "@ + if f.debug_build {
            "debug"@
        } else {
            "release"@
        },
    ]
}

pub open spec fn system_lines(f: DebugFacts) -> Seq<Seq<char>> {
    section_lines("system"@) + seq![
        "  os            "@ + f.os@,
        "  kernel        "@ + f.kernel@,
        "  arch          "@ + f.arch@,
        "  desktop       "@ + or_q(f.desktop, "?"@),
        "  session       "@ + or_q(f.session, "?"@),
    ]
}

pub open spec fn tools_lines(f: DebugFacts) -> Seq<Seq<char>> {
    section_lines("tools"@) + seq![
        "  pactl         "@ + f.pactl@,
        "  wpctl         "@ + f.wpctl@,
        "  bluetoothctl  "@ + f.bluetoothctl@,
        "  bluez daemon  "@ + f.bluez_daemon@,
    ]
}

pub open spec fn daemon_lines(f: DebugFacts, no_redact: bool) -> Seq<Seq<char>> {
    section_lines("daemon"@) + seq![
        "  socket        "@ + masked_path(
            f.socket@,
            match f.home {
                Some(h) => Some(h@),
                None => None,
            },
            no_redact,
        ),
        "  socket exists "@ + yes_no(f.socket_exists),
        "  reachable     "@ + yes_no(f.reachable),
    ]
}

pub open spec fn caps_lines(c: crate::caps::Capabilities) -> Seq<Seq<char>> {
    seq![
        "  caps          anc:"@ + yes_no(c.has_anc) + " trans:"@ + yes_no(c.has_transparency)
            + " adaptive:"@ + yes_no(c.has_adaptive) + " conv:"@ + yes_no(c.has_conv_awareness)
            + " loud:"@ + yes_no(c.has_loud_sound_reduction),
        "                spatial:"@ + yes_no(c.has_spatial_audio) + " press-hold:"@ + yes_no(
            c.has_press_and_hold,
        ) + " ear-det:"@ + yes_no(c.has_in_ear_detection) + " mic-sel:"@ + yes_no(
            c.has_mic_selection,
        ),
    ]
}

pub open spec fn device_lines(d: crate::bluez::DeviceSummary, no_redact: bool) -> Seq<Seq<char>> {
    let m = crate::bluez::model_of_modalias(d@.modalias);
    seq![
        "  model         "@ + m.title(),
        "  address       "@ + masked_mac(d.address@, no_redact),
        "  name          "@ + masked_name(d.name@, no_redact),
        "  connected     "@ + yes_no(d.connected),
        "  trusted       "@ + yes_no(d.trusted),
        "  paired        "@ + yes_no(d.paired),
        "  modalias      "@ + or_q(d.modalias, "-"@),
    ] + caps_lines(m.caps())
}

pub open spec fn airpods_lines(f: DebugFacts, no_redact: bool) -> Seq<Seq<char>> {
    section_lines("airpods"@) + match f.device {
        Some(d) => device_lines(d, no_redact),
        None => seq!["  (no paired AirPods detected)"@],
    } + seq!["  paired count  "@ + crate::text::decimal(f.paired_count as nat)]
}

pub open spec fn card_lines(c: crate::audio::CardInfo, no_redact: bool) -> Seq<Seq<char>> {
    seq![
        "  card          "@ + masked_node(c.name@, no_redact),
        "  profile       "@ + c.active_profile@,
        "  codec         "@ + or_q(c.codec, "-"@),
        "  profiles      "@ + joined(crate::text::strs_view(c.profiles@), ", "@),
        "  codecs        "@ + joined(crate::audio::codec_list(c@), ", "@),
    ]
}

pub open spec fn audio_lines(f: DebugFacts, no_redact: bool) -> Seq<Seq<char>> {
    section_lines("audio"@) + (match f.sink {
        Some(s) => seq![
            "  sink          "@ + masked_node(s.name@, no_redact),
            "  default sink  "@ + yes_no(s.is_default),
        ],
        None => seq!["  (no AirPods sink found in PipeWire)"@],
    }) + (match f.card {
        Some(c) => card_lines(c, no_redact),
        None => seq![],
    }) + match f.volume {
        Some(v) => seq![
            "  volume        "@ + crate::text::decimal(v as nat) + "% (muted: "@ + yes_no(f.muted)
                + ")"@,
        ],
        None => seq![],
    }
}

pub open spec fn env_lines(f: DebugFacts) -> Seq<Seq<char>> {
    section_lines("env"@) + seq![
        "  XDG_RUNTIME_DIR present  "@ + yes_no(f.runtime_dir_set),
        "  XDG_CONFIG_HOME present  "@ + yes_no(f.config_home_set),
        "  RUST_LOG                 "@ + or_q(f.rust_log, "(unset)"@),
    ]
}

/// The whole report, one line per element.
pub open spec fn debug_lines(f: DebugFacts, no_redact: bool) -> Seq<Seq<char>> {
    head_lines(no_redact) + build_lines(f) + system_lines(f) + tools_lines(f) + daemon_lines(
        f,
        no_redact,
    ) + airpods_lines(f, no_redact) + audio_lines(f, no_redact) + env_lines(f)
}

fn push_line(out: &mut Vec<String>, l: String)
    ensures
        crate::text::strs_view(final(out)@) == crate::text::strs_view(old(out)@).push(l@),
{
    out.push(l);
    assert(crate::text::strs_view(out@) =~= crate::text::strs_view(old(out)@).push(l@));
}

fn line(out: &mut Vec<String>, prefix: &str, value: &str)
    ensures
        crate::text::strs_view(final(out)@) == crate::text::strs_view(old(out)@).push(
            prefix@ + value@,
        ),
{
    let mut l = owned(prefix);
    push_str(&mut l, value);
    out.push(l);
    assert(crate::text::strs_view(out@) =~= crate::text::strs_view(old(out)@).push(prefix@ + value@));
}

fn line_opt(out: &mut Vec<String>, prefix: &str, value: &Option<String>, dflt: &str)
    ensures
        crate::text::strs_view(final(out)@) == crate::text::strs_view(old(out)@).push(
            prefix@ + or_q(*value, dflt@),
        ),
{
    match value {
        Some(v) => line(out, prefix, v.as_str()),
        None => line(out, prefix, dflt),
    }
}

fn head_report(out: &mut Vec<String>, no_redact: bool)
    ensures
        crate::text::strs_view(final(out)@) == crate::text::strs_view(old(out)@) + head_lines(
            no_redact,
        ),
{
    let ghost o0 = crate::text::strs_view(out@);
    line(out, "=== podctl debug report ===", "");
    line(
        out,
        "redacted: ",
        if no_redact {
            "no (LOCAL ONLY, do not paste)"
        } else {
            "yes"
        },
    );
    push_line(out, String::new());
    assert("=== podctl debug report ==="@ + ""@ =~= "=== podctl debug report ==="@) by {
        reveal_strlit("");
    }
    assert(crate::text::strs_view(out@) =~= o0 + head_lines(no_redact));
}

fn build_report(out: &mut Vec<String>, f: &DebugFacts)
    ensures
        crate::text::strs_view(final(out)@) == crate::text::strs_view(old(out)@) + build_lines(*f),
{
    let ghost o0 = crate::text::strs_view(out@);
    section(out, "podctl");
    line(out, "  version       ", f.version.as_str());
    line(out, "  license       MIT OR Apache-2.0", "");
    line(
        out,
        "  profile       ",
        if f.debug_build {
            "debug"
        } else {
            "release"
        },
    );
    assert("  license       MIT OR Apache-2.0"@ + ""@ =~= "  license       MIT OR Apache-2.0"@) by {
        reveal_strlit("");
    }
    assert(crate::text::strs_view(out@) =~= o0 + build_lines(*f));
}

fn system_report(out: &mut Vec<String>, f: &DebugFacts)
    ensures
        crate::text::strs_view(final(out)@) == crate::text::strs_view(old(out)@) + system_lines(*f),
{
    let ghost o0 = crate::text::strs_view(out@);
    section(out, "system");
    line(out, "  os            ", f.os.as_str());
    line(out, "  kernel        ", f.kernel.as_str());
    line(out, "  arch          ", f.arch.as_str());
    line_opt(out, "  desktop       ", &f.desktop, "?");
    line_opt(out, "  session       ", &f.session, "?");
    assert(crate::text::strs_view(out@) =~= o0 + system_lines(*f));
}

fn tools_report(out: &mut Vec<String>, f: &DebugFacts)
    ensures
        crate::text::strs_view(final(out)@) == crate::text::strs_view(old(out)@) + tools_lines(*f),
{
    let ghost o0 = crate::text::strs_view(out@);
    section(out, "tools");
    line(out, "  pactl         ", f.pactl.as_str());
    line(out, "  wpctl         ", f.wpctl.as_str());
    line(out, "  bluetoothctl  ", f.bluetoothctl.as_str());
    line(out, "  bluez daemon  ", f.bluez_daemon.as_str());
    assert(crate::text::strs_view(out@) =~= o0 + tools_lines(*f));
}

fn daemon_report(out: &mut Vec<String>, f: &DebugFacts, no_redact: bool)
    ensures
        crate::text::strs_view(final(out)@) == crate::text::strs_view(old(out)@) + daemon_lines(
            *f,
            no_redact,
        ),
{
    let ghost o0 = crate::text::strs_view(out@);
    section(out, "daemon");
    let home = match &f.home {
        Some(h) => Some(h.as_str()),
        None => None,
    };
    let p = redact_path(f.socket.as_str(), home, no_redact);
    line(out, "  socket        ", p.as_str());
    line(out, "  socket exists ", yesno(f.socket_exists));
    line(out, "  reachable     ", yesno(f.reachable));
    assert(crate::text::strs_view(out@) =~= o0 + daemon_lines(*f, no_redact));
}

fn caps_report(out: &mut Vec<String>, c: &crate::caps::Capabilities)
    ensures
        crate::text::strs_view(final(out)@) == crate::text::strs_view(old(out)@) + caps_lines(*c),
{
    let ghost o0 = crate::text::strs_view(out@);
    let mut a = owned("  caps          anc:");
    push_str(&mut a, yesno(c.has_anc));
    push_str(&mut a, " trans:");
    push_str(&mut a, yesno(c.has_transparency));
    push_str(&mut a, " adaptive:");
    push_str(&mut a, yesno(c.has_adaptive));
    push_str(&mut a, " conv:");
    push_str(&mut a, yesno(c.has_conv_awareness));
    push_str(&mut a, " loud:");
    push_str(&mut a, yesno(c.has_loud_sound_reduction));
    out.push(a);
    let mut b = owned("                spatial:");
    push_str(&mut b, yesno(c.has_spatial_audio));
    push_str(&mut b, " press-hold:");
    push_str(&mut b, yesno(c.has_press_and_hold));
    push_str(&mut b, " ear-det:");
    push_str(&mut b, yesno(c.has_in_ear_detection));
    push_str(&mut b, " mic-sel:");
    push_str(&mut b, yesno(c.has_mic_selection));
    out.push(b);
    assert(crate::text::strs_view(out@) =~= o0 + caps_lines(*c));
}

fn device_report(out: &mut Vec<String>, d: &crate::bluez::DeviceSummary, no_redact: bool)
    requires
        crate::bluez::modalias_cut_ok(d@.modalias),
    ensures
        crate::text::strs_view(final(out)@) == crate::text::strs_view(old(out)@) + device_lines(
            *d,
            no_redact,
        ),
{
    let ghost o0 = crate::text::strs_view(out@);
    let m = d.model();
    line(out, "  model         ", m.label());
    line(out, "  address       ", redact_mac(d.address.as_str(), no_redact).as_str());
    line(out, "  name          ", redact_name(d.name.as_str(), no_redact).as_str());
    line(out, "  connected     ", yesno(d.connected));
    line(out, "  trusted       ", yesno(d.trusted));
    line(out, "  paired        ", yesno(d.paired));
    line_opt(out, "  modalias      ", &d.modalias, "-");
    let ghost o1 = crate::text::strs_view(out@);
    caps_report(out, &m.capabilities());
    assert(o1 =~= o0 + seq![
        "  model         "@ + m.title(),
        "  address       "@ + masked_mac(d.address@, no_redact),
        "  name          "@ + masked_name(d.name@, no_redact),
        "  connected     "@ + yes_no(d.connected),
        "  trusted       "@ + yes_no(d.trusted),
        "  paired        "@ + yes_no(d.paired),
        "  modalias      "@ + or_q(d.modalias, "-"@),
    ]);
    assert(crate::text::strs_view(out@) =~= o0 + device_lines(*d, no_redact));
}

fn airpods_report(out: &mut Vec<String>, f: &DebugFacts, no_redact: bool)
    requires
        match f.device {
            Some(d) => crate::bluez::modalias_cut_ok(d@.modalias),
            None => true,
        },
    ensures
        crate::text::strs_view(final(out)@) == crate::text::strs_view(old(out)@) + airpods_lines(
            *f,
            no_redact,
        ),
{
    let ghost o0 = crate::text::strs_view(out@);
    section(out, "airpods");
    let ghost o1 = crate::text::strs_view(out@);
    match &f.device {
        Some(d) => device_report(out, d, no_redact),
        None => line(out, "  (no paired AirPods detected)", ""),
    }
    assert("  (no paired AirPods detected)"@ + ""@ =~= "  (no paired AirPods detected)"@) by {
        reveal_strlit("");
    }
    let ghost o2 = crate::text::strs_view(out@);
    let mut n = String::new();
    push_chars(&mut n, &crate::text::decimal_chars(f.paired_count as u64));
    line(out, "  paired count  ", n.as_str());
    assert(crate::text::strs_view(out@) =~= o0 + airpods_lines(*f, no_redact));
}

fn card_report(out: &mut Vec<String>, c: &crate::audio::CardInfo, no_redact: bool)
    ensures
        crate::text::strs_view(final(out)@) == crate::text::strs_view(old(out)@) + card_lines(
            *c,
            no_redact,
        ),
{
    let ghost o0 = crate::text::strs_view(out@);
    line(out, "  card          ", redact_node(c.name.as_str(), no_redact).as_str());
    line(out, "  profile       ", c.active_profile.as_str());
    line_opt(out, "  codec         ", &c.codec, "-");
    line(out, "  profiles      ", crate::text::join_strings(&c.profiles, ", ").as_str());
    let codecs = crate::audio::available_codecs(c);
    line(out, "  codecs        ", crate::text::join_strings(&codecs, ", ").as_str());
    assert(crate::text::strs_view(out@) =~= o0 + card_lines(*c, no_redact));
}

fn audio_report(out: &mut Vec<String>, f: &DebugFacts, no_redact: bool)
    ensures
        crate::text::strs_view(final(out)@) == crate::text::strs_view(old(out)@) + audio_lines(
            *f,
            no_redact,
        ),
{
    let ghost o0 = crate::text::strs_view(out@);
    section(out, "audio");
    let ghost o1 = crate::text::strs_view(out@);
    match &f.sink {
        Some(s) => {
            line(out, "  sink          ", redact_node(s.name.as_str(), no_redact).as_str());
            line(out, "  default sink  ", yesno(s.is_default));
        },
        None => line(out, "  (no AirPods sink found in PipeWire)", ""),
    }
    assert("  (no AirPods sink found in PipeWire)"@ + ""@ =~= "  (no AirPods sink found in PipeWire)"@)
        by {
        reveal_strlit("");
    }
    let ghost o2 = crate::text::strs_view(out@);
    match &f.card {
        Some(c) => card_report(out, c, no_redact),
        None => {},
    }
    let ghost o3 = crate::text::strs_view(out@);
    match f.volume {
        Some(v) => {
            let mut l = owned("  volume        ");
            push_chars(&mut l, &crate::text::decimal_chars(v as u64));
            push_str(&mut l, "% (muted: ");
            push_str(&mut l, yesno(f.muted));
            push_str(&mut l, ")");
            push_line(out, l);
        },
        None => {},
    }
    assert(o2 =~= o1 + match f.sink {
        Some(s) => seq![
            "  sink          "@ + masked_node(s.name@, no_redact),
            "  default sink  "@ + yes_no(s.is_default),
        ],
        None => seq!["  (no AirPods sink found in PipeWire)"@],
    });
    assert(o3 =~= o2 + match f.card {
        Some(c) => card_lines(c, no_redact),
        None => seq![],
    });
    assert(crate::text::strs_view(out@) =~= o0 + audio_lines(*f, no_redact));
}

fn env_report(out: &mut Vec<String>, f: &DebugFacts)
    ensures
        crate::text::strs_view(final(out)@) == crate::text::strs_view(old(out)@) + env_lines(*f),
{
    let ghost o0 = crate::text::strs_view(out@);
    section(out, "env");
    line(out, "  XDG_RUNTIME_DIR present  ", yesno(f.runtime_dir_set));
    line(out, "  XDG_CONFIG_HOME present  ", yesno(f.config_home_set));
    line_opt(out, "  RUST_LOG                 ", &f.rust_log, "(unset)");
    assert(crate::text::strs_view(out@) =~= o0 + env_lines(*f));
}

/// The report `podctl debug` prints, masked unless `no_redact`.
pub fn debug_report(f: &DebugFacts, no_redact: bool) -> (lines: Vec<String>)
    requires
        match f.device {
            Some(d) => crate::bluez::modalias_cut_ok(d@.modalias),
            None => true,
        },
    ensures
        crate::text::strs_view(lines@) == debug_lines(*f, no_redact),
{
    let mut out: Vec<String> = Vec::new();
    let ghost o0 = crate::text::strs_view(out@);
    head_report(&mut out, no_redact);
    build_report(&mut out, f);
    system_report(&mut out, f);
    tools_report(&mut out, f);
    daemon_report(&mut out, f, no_redact);
    airpods_report(&mut out, f, no_redact);
    audio_report(&mut out, f, no_redact);
    env_report(&mut out, f);
    assert(o0 =~= Seq::<Seq<char>>::empty());
    assert(crate::text::strs_view(out@) =~= debug_lines(*f, no_redact));
    out
}

// ---------------------------------------------------------------------
// Reading what the system reports
// ---------------------------------------------------------------------

/// The first `PRETTY_NAME=` line's value of an os-release file,
/// stripped of quotes.
pub open spec fn pretty_name_in(ls: Seq<Seq<char>>) -> Option<Seq<char>>
    decreases ls.len(),
{
    if ls.len() == 0 {
        None
    } else if starts_with(ls[0], "PRETTY_NAME="@) {
        Some(crate::tray::strip_both(ls[0].skip(12), '"'))
    } else {
        pretty_name_in(ls.drop_first())
    }
}

/// The OS name for the report: the pretty name of `/etc/os-release`
/// (its text, when it could be read), or `?`.
pub fn os_name(os_release: Option<&str>) -> (r: String)
    ensures
        r@ == match os_release {
            Some(t) => match pretty_name_in(crate::text::lines(t@)) {
                Some(n) => n,
                None => "?"@,
            },
            None => "?"@,
        },
{
    let t = match os_release {
        Some(t) => t,
        None => {
            return owned("?");
        },
    };
    let ls = crate::text::lines_of(&chars_of(t));
    let ghost all = views(ls@);
    let mut i: usize = 0;
    assert(all.skip(0) =~= all);
    while i < ls.len()
        invariant
            i <= ls@.len(),
            all == views(ls@),
            all == crate::text::lines(t@),
            os_release == Some(t),
            pretty_name_in(all) == pretty_name_in(all.skip(i as int)),
        decreases ls.len() - i,
    {
        assert(all.skip(i as int)[0] == ls@[i as int]@);
        assert(all.skip(i as int).drop_first() =~= all.skip(i + 1));
        proof {
            reveal_strlit("PRETTY_NAME=");
        }
        if let Some(v) = strip_prefix(&ls[i], "PRETTY_NAME=") {
            let n = crate::tray::strip_both_of(&v, '"');
            let mut r = String::new();
            push_chars(&mut r, &n);
            assert(v@ == ls@[i as int]@.skip(12));
            assert(pretty_name_in(all.skip(i as int)) == Some(n@));
            assert(r@ =~= n@);
            return r;
        }
        i += 1;
    }
    assert(all.skip(i as int) =~= Seq::<Seq<char>>::empty());
    owned("?")
}

/// A tool's version for the report: the first line of what
/// `<tool> --version` printed, trimmed, when there is one.
pub open spec fn first_line_of(out: Seq<char>) -> Seq<char> {
    let ls = crate::text::lines(out);
    if ls.len() > 0 {
        crate::text::trim(ls[0])
    } else {
        seq![]
    }
}

pub fn version_line(out: &str) -> (r: Option<String>)
    ensures
        match r {
            Some(l) => l@ == first_line_of(out@) && l@.len() > 0,
            None => first_line_of(out@).len() == 0,
        },
{
    let ls = crate::text::lines_of(&chars_of(out));
    if ls.len() == 0 {
        return None;
    }
    assert(views(ls@)[0] == ls@[0]@);
    let l = crate::text::trim_chars(&ls[0]);
    if l.len() == 0 {
        None
    } else {
        let mut r = String::new();
        push_chars(&mut r, &l);
        assert(r@ =~= l@);
        Some(r)
    }
}

} // verus!
