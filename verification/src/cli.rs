//! The command line: how `podctl <verb> [args]` becomes a request, which
//! errors it reports with which exit code, and what a reply exits with.

use vstd::prelude::*;

use crate::exitcode;
use crate::ipc::{PressSide, Request, Response};
use crate::model::{
    key, mic_named, mode_named, press_action_named, profile_named, spatial_named, switch_named,
    ConvAwareness, MicSelection, Mode, PressAction, Profile, SpatialAudio,
};
use crate::text::{
    chars_of, decimal, decimal_chars, eq_str, key_of, lower, lower_chars, owned, parse_signed,
    parse_signed_chars, parse_unsigned, parse_unsigned_chars, push_chars, push_str, strs_view,
};

verus! {

/// A failed command: the message for stderr and the process exit code.
#[derive(Clone, Debug)]
pub struct CliError {
    pub msg: String,
    pub code: i32,
}

impl CliError {
    /// Bad command line (`EX_USAGE`).
    pub fn usage(msg: String) -> (e: CliError)
        ensures
            e.msg == msg,
            e.code == exitcode::USAGE,
    {
        CliError { msg, code: exitcode::USAGE }
    }

    /// The daemon or the device is not there (`EX_UNAVAILABLE`).
    pub fn unavailable(msg: String) -> (e: CliError)
        ensures
            e.msg == msg,
            e.code == exitcode::UNAVAILABLE,
    {
        CliError { msg, code: exitcode::UNAVAILABLE }
    }

    /// A socket operation failed (`EX_OSERR`).
    pub fn oserr(msg: String) -> (e: CliError)
        ensures
            e.msg == msg,
            e.code == exitcode::OSERR,
    {
        CliError { msg, code: exitcode::OSERR }
    }

    /// The daemon answered something unreadable (`EX_DATAERR`).
    pub fn dataerr(msg: String) -> (e: CliError)
        ensures
            e.msg == msg,
            e.code == exitcode::DATAERR,
    {
        CliError { msg, code: exitcode::DATAERR }
    }

    pub fn exit_code(&self) -> (c: i32)
        ensures
            c == self.code,
    {
        self.code
    }
}

// ---------------------------------------------------------------------
// Flags and arguments
// ---------------------------------------------------------------------

/// `args` without any occurrence of `flag`.
pub open spec fn without_flag(args: Seq<Seq<char>>, flag: Seq<char>) -> Seq<Seq<char>>
    decreases args.len(),
{
    if args.len() == 0 {
        args
    } else if args.last() == flag {
        without_flag(args.drop_last(), flag)
    } else {
        without_flag(args.drop_last(), flag).push(args.last())
    }
}

/// Removes every `flag` from `args`; whether there was one.
pub fn pop_flag(args: &mut Vec<String>, flag: &str) -> (found: bool)
    ensures
        found == strs_view(old(args)@).contains(flag@),
        strs_view(final(args)@) == without_flag(strs_view(old(args)@), flag@),
{
    let ghost a0 = strs_view(args@);
    let mut kept: Vec<String> = Vec::new();
    let mut found = false;
    let mut i: usize = 0;
    let f = chars_of(flag);
    while i < args.len()
        invariant
            i <= args.len(),
            a0 == strs_view(args@),
            f@ == flag@,
            strs_view(kept@) == without_flag(a0.take(i as int), flag@),
            found == a0.take(i as int).contains(flag@),
        decreases args.len() - i,
    {
        assert(a0.take(i + 1) == a0.take(i as int).push(args@[i as int]@));
        assert(a0.take(i + 1).drop_last() == a0.take(i as int));
        assert(a0.take(i + 1).last() == args@[i as int]@);
        proof {
            vstd::seq_lib::lemma_seq_contains_after_push(a0.take(i as int), args@[i as int]@, flag@);
        }
        if eq_str(&f, args[i].as_str()) {
            found = true;
            assert(without_flag(a0.take(i + 1), flag@) == without_flag(a0.take(i as int), flag@));
        } else {
            kept.push(args[i].clone());
            assert(strs_view(kept@) =~= without_flag(a0.take(i as int), flag@).push(args@[i as int]@));
        }
        i += 1;
    }
    assert(a0.take(args.len() as int) == a0);
    *args = kept;
    found
}

/// `'<verb>' needs an argument: <hint>`.
pub open spec fn needs_msg(verb: Seq<char>, hint: Seq<char>) -> Seq<char> {
    "'"@ + verb + "' needs an argument: "@ + hint
}

/// `'<verb>': <detail>`.
pub open spec fn verb_msg(verb: Seq<char>, detail: Seq<char>) -> Seq<char> {
    "'"@ + verb + "': "@ + detail
}

fn needs_error(verb: &str, hint: &str) -> (e: CliError)
    ensures
        e.msg@ == needs_msg(verb@, hint@),
        e.code == exitcode::USAGE,
{
    let mut m = owned("'");
    push_str(&mut m, verb);
    push_str(&mut m, "' needs an argument: ");
    push_str(&mut m, hint);
    CliError::usage(m)
}

fn verb_error(verb: &str, detail: &str) -> (e: CliError)
    ensures
        e.msg@ == verb_msg(verb@, detail@),
        e.code == exitcode::USAGE,
{
    let mut m = owned("'");
    push_str(&mut m, verb);
    push_str(&mut m, "': ");
    push_str(&mut m, detail);
    CliError::usage(m)
}

/// The first argument, or the usage error that names what is missing.
pub fn require_arg<'a>(rest: &'a [String], verb: &str, hint: &str) -> (r: Result<&'a str, CliError>)
    ensures
        match r {
            Ok(a) => rest@.len() > 0 && a@ == rest@[0]@,
            Err(e) => rest@.len() == 0 && e.code == exitcode::USAGE && e.msg@ == needs_msg(
                verb@,
                hint@,
            ),
        },
{
    if rest.len() == 0 {
        Err(needs_error(verb, hint))
    } else {
        Ok(rest[0].as_str())
    }
}

/// The outcome of an on/off argument.
pub open spec fn on_off_arg(rest: Seq<Seq<char>>, verb: Seq<char>) -> Result<bool, Seq<char>> {
    if rest.len() == 0 {
        Err(needs_msg(verb, "on|off"@))
    } else {
        match switch_named(key(rest[0])) {
            Some(b) => Ok(b),
            None => Err(verb_msg(verb, "expected on|off, got '"@ + rest[0] + "'"@)),
        }
    }
}

pub open spec fn usage_result<T>(r: Result<T, CliError>, want: Result<T, Seq<char>>) -> bool {
    match r {
        Ok(x) => want == Ok::<T, Seq<char>>(x),
        Err(e) => e.code == exitcode::USAGE && want == Err::<T, Seq<char>>(e.msg@),
    }
}

/// Reads `on|1|true|yes` or `off|0|false|no` (trimmed, any ASCII case).
pub fn parse_on_off(rest: &[String], verb: &str) -> (r: Result<bool, CliError>)
    ensures
        usage_result(r, on_off_arg(strs_view(rest@), verb@)),
{
    let raw = match require_arg(rest, verb, "on|off") {
        Ok(a) => a,
        Err(e) => {
            return Err(e);
        },
    };
    let k = key_of(raw);
    if eq_str(&k, "on") || eq_str(&k, "1") || eq_str(&k, "true") || eq_str(&k, "yes") {
        Ok(true)
    } else if eq_str(&k, "off") || eq_str(&k, "0") || eq_str(&k, "false") || eq_str(&k, "no") {
        Ok(false)
    } else {
        let mut d = owned("expected on|off, got '");
        push_str(&mut d, raw);
        push_str(&mut d, "'");
        Err(verb_error(verb, d.as_str()))
    }
}

pub open spec fn missing_side_msg() -> Seq<char> {
    "'press' needs <side> <action>, e.g. 'podctl press left mode-cycle'"@
}

/// The side a `press` command names (ASCII case ignored).
pub open spec fn press_side_arg(raw: Option<Seq<char>>) -> Result<PressSide, Seq<char>> {
    match raw {
        None => Err(missing_side_msg()),
        Some(s) => {
            let l = lower(s);
            if l == "left"@ || l == "l"@ {
                Ok(PressSide::Left)
            } else if l == "right"@ || l == "r"@ {
                Ok(PressSide::Right)
            } else {
                Err("'press': side must be 'left' or 'right', got '"@ + l + "'"@)
            }
        },
    }
}

pub fn parse_press_side(raw: Option<&str>) -> (r: Result<PressSide, CliError>)
    ensures
        usage_result(
            r,
            press_side_arg(
                match raw {
                    Some(s) => Some(s@),
                    None => None,
                },
            ),
        ),
{
    match raw {
        None => Err(CliError::usage(
            owned("'press' needs <side> <action>, e.g. 'podctl press left mode-cycle'"),
        )),
        Some(s) => {
            let l = lower_chars(&chars_of(s));
            if eq_str(&l, "left") || eq_str(&l, "l") {
                Ok(PressSide::Left)
            } else if eq_str(&l, "right") || eq_str(&l, "r") {
                Ok(PressSide::Right)
            } else {
                let mut m = owned("'press': side must be 'left' or 'right', got '");
                push_chars(&mut m, &l);
                push_str(&mut m, "'");
                Err(CliError::usage(m))
            }
        },
    }
}

// ---------------------------------------------------------------------
// Verbs
// ---------------------------------------------------------------------

/// What a command line asks for; the text arguments of `rename` and
/// `codec` as character sequences.
pub enum Parsed {
    Req(Request),
    Rename(Seq<char>),
    Codec(Seq<char>),
}

/// Whether the request `r` is what `p` describes.
pub open spec fn fits(r: Request, p: Parsed) -> bool {
    match p {
        Parsed::Req(q) => r == q,
        Parsed::Rename(n) => r matches Request::Rename { name } && name@ == n,
        Parsed::Codec(c) => r matches Request::SetCodec { codec } && codec@ == c,
    }
}

/// Verbs that take no argument.
pub open spec fn plain_verb(v: Seq<char>) -> Option<Request> {
    if v == "status"@ || v == "s"@ {
        Some(Request::Status)
    } else if v == "battery"@ || v == "bat"@ || v == "b"@ {
        Some(Request::Battery)
    } else if v == "ping"@ {
        Some(Request::Ping)
    } else if v == "connect"@ {
        Some(Request::Connect)
    } else if v == "disconnect"@ || v == "dc"@ {
        Some(Request::Disconnect)
    } else if v == "pair"@ {
        Some(Request::Pair)
    } else if v == "unpair"@ || v == "forget"@ {
        Some(Request::Unpair)
    } else if v == "list"@ || v == "ls"@ {
        Some(Request::List)
    } else if v == "default"@ || v == "default-sink"@ {
        Some(Request::MakeDefaultSink)
    } else if v == "watch"@ || v == "w"@ {
        Some(Request::Watch)
    } else {
        None
    }
}

/// Which on/off setting a verb switches (1 ear detection, 2 loud-sound
/// reduction, 3 press tone, 4 auto-connect, 5 mute, 6 one-bud ANC).
pub open spec fn switch_verb(v: Seq<char>) -> Option<u8> {
    if v == "ear"@ || v == "ear-detection"@ {
        Some(1u8)
    } else if v == "loud-reduction"@ || v == "loud"@ {
        Some(2u8)
    } else if v == "tone-on-press"@ || v == "tone"@ {
        Some(3u8)
    } else if v == "auto-connect"@ || v == "auto"@ {
        Some(4u8)
    } else if v == "mute"@ {
        Some(5u8)
    } else if v == "one-bud-anc"@ || v == "obanc"@ {
        Some(6u8)
    } else {
        None
    }
}

pub open spec fn switch_request(k: u8, b: bool) -> Request {
    if k == 1 {
        Request::SetEarDetection { on: b }
    } else if k == 2 {
        Request::SetLoudReduction { on: b }
    } else if k == 3 {
        Request::SetToneOnPress { on: b }
    } else if k == 4 {
        Request::SetAutoConnect { on: b }
    } else if k == 5 {
        Request::SetMuted { muted: b }
    } else {
        Request::SetOneBudAnc { on: b }
    }
}

/// Which 0..100 level a verb sets (1 volume, 2 chime, 3 auto-ANC).
pub open spec fn level_verb(v: Seq<char>) -> Option<u8> {
    if v == "volume"@ || v == "vol"@ || v == "v"@ {
        Some(1u8)
    } else if v == "chime"@ || v == "chime-volume"@ {
        Some(2u8)
    } else if v == "auto-anc"@ || v == "anc-strength"@ {
        Some(3u8)
    } else {
        None
    }
}

/// The name a level error message gives the command.
pub open spec fn level_label(k: u8) -> Seq<char> {
    if k == 1 {
        "volume"@
    } else if k == 2 {
        "chime"@
    } else {
        "auto-anc"@
    }
}

pub open spec fn level_request(k: u8, n: u8) -> Request {
    if k == 1 {
        Request::SetVolume { percent: n }
    } else if k == 2 {
        Request::SetChimeVolume { level: n }
    } else {
        Request::SetAutoAncLevel { level: n }
    }
}

/// A 0..100 argument: parsed as `u8`, then range-checked.
pub open spec fn level_arg(rest: Seq<Seq<char>>, verb: Seq<char>, k: u8) -> Result<u8, Seq<char>> {
    if rest.len() == 0 {
        Err(needs_msg(verb, "0..100"@))
    } else {
        match parse_unsigned(rest[0], 255) {
            None => Err(verb_msg(level_label(k), "expected 0..100, got '"@ + rest[0] + "'"@)),
            Some(n) => if n > 100 {
                Err(verb_msg(level_label(k), "expected 0..100, got "@ + decimal(n)))
            } else {
                Ok(n as u8)
            },
        }
    }
}

pub open spec fn mode_arg(a: Seq<char>) -> Result<Mode, Seq<char>> {
    match mode_named(key(a)) {
        Some(m) => Ok(m),
        None => Err("unknown mode '"@ + a + "'"@),
    }
}

pub open spec fn conv_arg(a: Seq<char>) -> Result<ConvAwareness, Seq<char>> {
    match switch_named(key(a)) {
        Some(b) => Ok(
            if b {
                ConvAwareness::On
            } else {
                ConvAwareness::Off
            },
        ),
        None => Err("expected 'on' or 'off', got '"@ + a + "'"@),
    }
}

pub open spec fn spatial_arg(a: Seq<char>) -> Result<SpatialAudio, Seq<char>> {
    match spatial_named(key(a)) {
        Some(m) => Ok(m),
        None => Err("unknown spatial-audio mode '"@ + a + "'"@),
    }
}

pub open spec fn mic_arg(a: Seq<char>) -> Result<MicSelection, Seq<char>> {
    match mic_named(key(a)) {
        Some(m) => Ok(m),
        None => Err("expected 'auto', 'left' or 'right', got '"@ + a + "'"@),
    }
}

pub open spec fn profile_arg(a: Seq<char>) -> Result<Profile, Seq<char>> {
    match profile_named(key(a)) {
        Some(p) => Ok(p),
        None => Err("unknown profile '"@ + a + "'"@),
    }
}

pub open spec fn action_arg(a: Seq<char>) -> Result<PressAction, Seq<char>> {
    match press_action_named(key(a)) {
        Some(x) => Ok(x),
        None => Err("unknown press-action '"@ + a + "'"@),
    }
}

/// A typed argument at `idx`: missing, refused by the type's parser (its
/// message after the verb), or parsed.
pub open spec fn typed_arg<T>(rest: Seq<Seq<char>>, idx: int, verb: Seq<char>, hint: Seq<char>, parsed: spec_fn(Seq<char>) -> Result<T, Seq<char>>) -> Result<T, Seq<char>> {
    if rest.len() <= idx {
        Err(needs_msg(verb, hint))
    } else {
        match parsed(rest[idx]) {
            Ok(x) => Ok(x),
            Err(e) => Err(verb_msg(verb, e)),
        }
    }
}

pub open spec fn unknown_msg(v: Seq<char>) -> Seq<char> {
    "unknown command '"@ + v + "'. run 'podctl help' for the full list."@
}

/// What `podctl <v> <rest...>` asks for, or the usage message it fails
/// with.
pub open spec fn verb_result(v: Seq<char>, rest: Seq<Seq<char>>) -> Result<Parsed, Seq<char>> {
    if plain_verb(v) is Some {
        Ok(Parsed::Req(plain_verb(v).unwrap()))
    } else if switch_verb(v) is Some {
        match on_off_arg(rest, v) {
            Ok(b) => Ok(Parsed::Req(switch_request(switch_verb(v).unwrap(), b))),
            Err(e) => Err(e),
        }
    } else if level_verb(v) is Some {
        let k = level_verb(v).unwrap();
        match level_arg(rest, v, k) {
            Ok(n) => Ok(Parsed::Req(level_request(k, n))),
            Err(e) => Err(e),
        }
    } else if v == "mode"@ || v == "m"@ {
        match typed_arg(rest, 0, v, "off|anc|transparency|adaptive"@, |a: Seq<char>| mode_arg(a)) {
            Ok(m) => Ok(Parsed::Req(Request::SetMode { mode: m })),
            Err(e) => Err(e),
        }
    } else if v == "conv"@ || v == "c"@ {
        match typed_arg(rest, 0, v, "on|off"@, |a: Seq<char>| conv_arg(a)) {
            Ok(c) => Ok(Parsed::Req(Request::SetConv { conv: c })),
            Err(e) => Err(e),
        }
    } else if v == "spatial"@ {
        match typed_arg(rest, 0, v, "off|fixed|head-tracked"@, |a: Seq<char>| spatial_arg(a)) {
            Ok(m) => Ok(Parsed::Req(Request::SetSpatial { mode: m })),
            Err(e) => Err(e),
        }
    } else if v == "mic"@ {
        match typed_arg(rest, 0, v, "auto|left|right"@, |a: Seq<char>| mic_arg(a)) {
            Ok(m) => Ok(Parsed::Req(Request::SetMic { mic: m })),
            Err(e) => Err(e),
        }
    } else if v == "profile"@ || v == "p"@ {
        match typed_arg(rest, 0, v, "high|headset|off"@, |a: Seq<char>| profile_arg(a)) {
            Ok(p) => Ok(Parsed::Req(Request::SetProfile { profile: p })),
            Err(e) => Err(e),
        }
    } else if v == "press"@ {
        match press_side_arg(if rest.len() > 0 { Some(rest[0]) } else { None }) {
            Err(e) => Err(e),
            Ok(side) => match typed_arg(rest, 1, v, "mode-cycle|siri|none"@, |a: Seq<char>| action_arg(a)) {
                Ok(action) => Ok(Parsed::Req(Request::SetPressAction { side, action })),
                Err(e) => Err(e),
            },
        }
    } else if v == "rename"@ {
        if rest.len() == 0 {
            Err(needs_msg(v, "\"new name\""@))
        } else {
            Ok(Parsed::Rename(rest[0]))
        }
    } else if v == "codec"@ {
        if rest.len() == 0 {
            Err(needs_msg(v, "sbc|aac|aptx|ldac|…"@))
        } else {
            Ok(Parsed::Codec(rest[0]))
        }
    } else if v == "latency"@ {
        if rest.len() == 0 {
            Err(needs_msg(v, "<ms> (negative ok)"@))
        } else {
            match parse_signed(rest[0], -0x8000_0000, 0x7fff_ffff) {
                Some(ms) => Ok(Parsed::Req(Request::SetLatencyOffset { ms: ms as i32 })),
                None => Err(verb_msg("latency"@, "expected integer ms, got '"@ + rest[0] + "'"@)),
            }
        }
    } else {
        Err(unknown_msg(v))
    }
}

/// Where the verbs the laws below speak of fall among the verb classes.
proof fn lemma_level_verb_classes()
    ensures
        plain_verb("volume"@) is None && switch_verb("volume"@) is None && level_verb("volume"@) == Some(1u8),
        plain_verb("vol"@) is None && switch_verb("vol"@) is None && level_verb("vol"@) == Some(1u8),
        plain_verb("v"@) is None && switch_verb("v"@) is None && level_verb("v"@) == Some(1u8),
        plain_verb("chime"@) is None && switch_verb("chime"@) is None && level_verb("chime"@) == Some(2u8),
        plain_verb("chime-volume"@) is None && switch_verb("chime-volume"@) is None && level_verb("chime-volume"@) == Some(2u8),
{
    reveal_strlit("anc-strength");
    reveal_strlit("auto");
    reveal_strlit("auto-anc");
    reveal_strlit("auto-connect");
    reveal_strlit("b");
    reveal_strlit("bat");
    reveal_strlit("battery");
    reveal_strlit("c");
    reveal_strlit("chime");
    reveal_strlit("chime-volume");
    reveal_strlit("connect");
    reveal_strlit("conv");
    reveal_strlit("dc");
    reveal_strlit("default");
    reveal_strlit("default-sink");
    reveal_strlit("disconnect");
    reveal_strlit("ear");
    reveal_strlit("ear-detection");
    reveal_strlit("forget");
    reveal_strlit("list");
    reveal_strlit("loud");
    reveal_strlit("loud-reduction");
    reveal_strlit("ls");
    reveal_strlit("m");
    reveal_strlit("mic");
    reveal_strlit("mode");
    reveal_strlit("mute");
    reveal_strlit("obanc");
    reveal_strlit("one-bud-anc");
    reveal_strlit("p");
    reveal_strlit("pair");
    reveal_strlit("ping");
    reveal_strlit("profile");
    reveal_strlit("s");
    reveal_strlit("spatial");
    reveal_strlit("status");
    reveal_strlit("tone");
    reveal_strlit("tone-on-press");
    reveal_strlit("unpair");
    reveal_strlit("v");
    reveal_strlit("vol");
    reveal_strlit("volume");
    reveal_strlit("w");
    reveal_strlit("watch");
    assert("anc-strength"@.len() == 12);
    assert("auto"@.len() == 4);
    assert("auto-anc"@.len() == 8);
    assert("auto-connect"@.len() == 12);
    assert("b"@.len() == 1);
    assert("bat"@.len() == 3);
    assert("battery"@.len() == 7);
    assert("c"@.len() == 1);
    assert("chime"@.len() == 5);
    assert("chime-volume"@.len() == 12);
    assert("connect"@.len() == 7);
    assert("conv"@.len() == 4);
    assert("dc"@.len() == 2);
    assert("default"@.len() == 7);
    assert("default-sink"@.len() == 12);
    assert("disconnect"@.len() == 10);
    assert("ear"@.len() == 3);
    assert("ear-detection"@.len() == 13);
    assert("forget"@.len() == 6);
    assert("list"@.len() == 4);
    assert("loud"@.len() == 4);
    assert("loud-reduction"@.len() == 14);
    assert("ls"@.len() == 2);
    assert("m"@.len() == 1);
    assert("mic"@.len() == 3);
    assert("mode"@.len() == 4);
    assert("mute"@.len() == 4);
    assert("obanc"@.len() == 5);
    assert("one-bud-anc"@.len() == 11);
    assert("p"@.len() == 1);
    assert("pair"@.len() == 4);
    assert("ping"@.len() == 4);
    assert("profile"@.len() == 7);
    assert("s"@.len() == 1);
    assert("spatial"@.len() == 7);
    assert("status"@.len() == 6);
    assert("tone"@.len() == 4);
    assert("tone-on-press"@.len() == 13);
    assert("unpair"@.len() == 6);
    assert("v"@.len() == 1);
    assert("vol"@.len() == 3);
    assert("volume"@.len() == 6);
    assert("w"@.len() == 1);
    assert("watch"@.len() == 5);
    assert("volume"@[0] != "forget"@[0]);
    assert("volume"@[0] != "status"@[0]);
    assert("volume"@[0] != "unpair"@[0]);
    assert("vol"@[0] != "bat"@[0]);
    assert("vol"@[0] != "ear"@[0]);
    assert("vol"@[0] != "mic"@[0]);
    assert("v"@[0] != "b"@[0]);
    assert("v"@[0] != "c"@[0]);
    assert("v"@[0] != "m"@[0]);
    assert("v"@[0] != "p"@[0]);
    assert("v"@[0] != "s"@[0]);
    assert("v"@[0] != "w"@[0]);
    assert("chime"@[0] != "obanc"@[0]);
    assert("chime"@[0] != "watch"@[0]);
    assert("chime-volume"@[0] != "anc-strength"@[0]);
    assert("chime-volume"@[0] != "auto-connect"@[0]);
    assert("chime-volume"@[0] != "default-sink"@[0]);
}

proof fn lemma_switch_verb_classes()
    ensures
        plain_verb("ear"@) is None && switch_verb("ear"@) == Some(1u8),
        plain_verb("ear-detection"@) is None && switch_verb("ear-detection"@) == Some(1u8),
        plain_verb("loud-reduction"@) is None && switch_verb("loud-reduction"@) == Some(2u8),
        plain_verb("loud"@) is None && switch_verb("loud"@) == Some(2u8),
        plain_verb("tone-on-press"@) is None && switch_verb("tone-on-press"@) == Some(3u8),
        plain_verb("tone"@) is None && switch_verb("tone"@) == Some(3u8),
        plain_verb("auto-connect"@) is None && switch_verb("auto-connect"@) == Some(4u8),
        plain_verb("auto"@) is None && switch_verb("auto"@) == Some(4u8),
        plain_verb("mute"@) is None && switch_verb("mute"@) == Some(5u8),
        plain_verb("one-bud-anc"@) is None && switch_verb("one-bud-anc"@) == Some(6u8),
        plain_verb("obanc"@) is None && switch_verb("obanc"@) == Some(6u8),
{
    reveal_strlit("anc-strength");
    reveal_strlit("auto");
    reveal_strlit("auto-anc");
    reveal_strlit("auto-connect");
    reveal_strlit("b");
    reveal_strlit("bat");
    reveal_strlit("battery");
    reveal_strlit("c");
    reveal_strlit("chime");
    reveal_strlit("chime-volume");
    reveal_strlit("connect");
    reveal_strlit("conv");
    reveal_strlit("dc");
    reveal_strlit("default");
    reveal_strlit("default-sink");
    reveal_strlit("disconnect");
    reveal_strlit("ear");
    reveal_strlit("ear-detection");
    reveal_strlit("forget");
    reveal_strlit("list");
    reveal_strlit("loud");
    reveal_strlit("loud-reduction");
    reveal_strlit("ls");
    reveal_strlit("m");
    reveal_strlit("mic");
    reveal_strlit("mode");
    reveal_strlit("mute");
    reveal_strlit("obanc");
    reveal_strlit("one-bud-anc");
    reveal_strlit("p");
    reveal_strlit("pair");
    reveal_strlit("ping");
    reveal_strlit("profile");
    reveal_strlit("s");
    reveal_strlit("spatial");
    reveal_strlit("status");
    reveal_strlit("tone");
    reveal_strlit("tone-on-press");
    reveal_strlit("unpair");
    reveal_strlit("v");
    reveal_strlit("vol");
    reveal_strlit("volume");
    reveal_strlit("w");
    reveal_strlit("watch");
    assert("anc-strength"@.len() == 12);
    assert("auto"@.len() == 4);
    assert("auto-anc"@.len() == 8);
    assert("auto-connect"@.len() == 12);
    assert("b"@.len() == 1);
    assert("bat"@.len() == 3);
    assert("battery"@.len() == 7);
    assert("c"@.len() == 1);
    assert("chime"@.len() == 5);
    assert("chime-volume"@.len() == 12);
    assert("connect"@.len() == 7);
    assert("conv"@.len() == 4);
    assert("dc"@.len() == 2);
    assert("default"@.len() == 7);
    assert("default-sink"@.len() == 12);
    assert("disconnect"@.len() == 10);
    assert("ear"@.len() == 3);
    assert("ear-detection"@.len() == 13);
    assert("forget"@.len() == 6);
    assert("list"@.len() == 4);
    assert("loud"@.len() == 4);
    assert("loud-reduction"@.len() == 14);
    assert("ls"@.len() == 2);
    assert("m"@.len() == 1);
    assert("mic"@.len() == 3);
    assert("mode"@.len() == 4);
    assert("mute"@.len() == 4);
    assert("obanc"@.len() == 5);
    assert("one-bud-anc"@.len() == 11);
    assert("p"@.len() == 1);
    assert("pair"@.len() == 4);
    assert("ping"@.len() == 4);
    assert("profile"@.len() == 7);
    assert("s"@.len() == 1);
    assert("spatial"@.len() == 7);
    assert("status"@.len() == 6);
    assert("tone"@.len() == 4);
    assert("tone-on-press"@.len() == 13);
    assert("unpair"@.len() == 6);
    assert("v"@.len() == 1);
    assert("vol"@.len() == 3);
    assert("volume"@.len() == 6);
    assert("w"@.len() == 1);
    assert("watch"@.len() == 5);
    assert("ear"@[0] != "bat"@[0]);
    assert("ear"@[0] != "mic"@[0]);
    assert("ear"@[0] != "vol"@[0]);
    assert("ear-detection"@[0] != "tone-on-press"@[0]);
    assert("loud"@[0] != "auto"@[0]);
    assert("loud"@[0] != "conv"@[0]);
    assert("loud"@[1] != "list"@[1]);
    assert("loud"@[0] != "mode"@[0]);
    assert("loud"@[0] != "mute"@[0]);
    assert("loud"@[0] != "pair"@[0]);
    assert("loud"@[0] != "ping"@[0]);
    assert("loud"@[0] != "tone"@[0]);
    assert("tone-on-press"@[0] != "ear-detection"@[0]);
    assert("tone"@[0] != "auto"@[0]);
    assert("tone"@[0] != "conv"@[0]);
    assert("tone"@[0] != "list"@[0]);
    assert("tone"@[0] != "loud"@[0]);
    assert("tone"@[0] != "mode"@[0]);
    assert("tone"@[0] != "mute"@[0]);
    assert("tone"@[0] != "pair"@[0]);
    assert("tone"@[0] != "ping"@[0]);
    assert("auto-connect"@[1] != "anc-strength"@[1]);
    assert("auto-connect"@[0] != "chime-volume"@[0]);
    assert("auto-connect"@[0] != "default-sink"@[0]);
    assert("auto"@[0] != "conv"@[0]);
    assert("auto"@[0] != "list"@[0]);
    assert("auto"@[0] != "loud"@[0]);
    assert("auto"@[0] != "mode"@[0]);
    assert("auto"@[0] != "mute"@[0]);
    assert("auto"@[0] != "pair"@[0]);
    assert("auto"@[0] != "ping"@[0]);
    assert("auto"@[0] != "tone"@[0]);
    assert("mute"@[0] != "auto"@[0]);
    assert("mute"@[0] != "conv"@[0]);
    assert("mute"@[0] != "list"@[0]);
    assert("mute"@[0] != "loud"@[0]);
    assert("mute"@[1] != "mode"@[1]);
    assert("mute"@[0] != "pair"@[0]);
    assert("mute"@[0] != "ping"@[0]);
    assert("mute"@[0] != "tone"@[0]);
    assert("obanc"@[0] != "chime"@[0]);
    assert("obanc"@[0] != "watch"@[0]);
}

proof fn lemma_typed_verb_classes()
    ensures
        plain_verb("mode"@) is None && switch_verb("mode"@) is None && level_verb("mode"@) is None,
        plain_verb("m"@) is None && switch_verb("m"@) is None && level_verb("m"@) is None && "m"@ != "mode"@,
        plain_verb("conv"@) is None && switch_verb("conv"@) is None && level_verb("conv"@) is None && "conv"@ != "mode"@ && "conv"@ != "m"@,
        plain_verb("c"@) is None && switch_verb("c"@) is None && level_verb("c"@) is None && "c"@ != "mode"@ && "c"@ != "m"@ && "c"@ != "conv"@,
        plain_verb("spatial"@) is None && switch_verb("spatial"@) is None && level_verb("spatial"@) is None && "spatial"@ != "mode"@ && "spatial"@ != "m"@ && "spatial"@ != "conv"@ && "spatial"@ != "c"@,
        plain_verb("mic"@) is None && switch_verb("mic"@) is None && level_verb("mic"@) is None && "mic"@ != "mode"@ && "mic"@ != "m"@ && "mic"@ != "conv"@ && "mic"@ != "c"@ && "mic"@ != "spatial"@,
        plain_verb("profile"@) is None && switch_verb("profile"@) is None && level_verb("profile"@) is None && "profile"@ != "mode"@ && "profile"@ != "m"@ && "profile"@ != "conv"@ && "profile"@ != "c"@ && "profile"@ != "spatial"@ && "profile"@ != "mic"@,
        plain_verb("p"@) is None && switch_verb("p"@) is None && level_verb("p"@) is None && "p"@ != "mode"@ && "p"@ != "m"@ && "p"@ != "conv"@ && "p"@ != "c"@ && "p"@ != "spatial"@ && "p"@ != "mic"@ && "p"@ != "profile"@,
{
    reveal_strlit("anc-strength");
    reveal_strlit("auto");
    reveal_strlit("auto-anc");
    reveal_strlit("auto-connect");
    reveal_strlit("b");
    reveal_strlit("bat");
    reveal_strlit("battery");
    reveal_strlit("c");
    reveal_strlit("chime");
    reveal_strlit("chime-volume");
    reveal_strlit("connect");
    reveal_strlit("conv");
    reveal_strlit("dc");
    reveal_strlit("default");
    reveal_strlit("default-sink");
    reveal_strlit("disconnect");
    reveal_strlit("ear");
    reveal_strlit("ear-detection");
    reveal_strlit("forget");
    reveal_strlit("list");
    reveal_strlit("loud");
    reveal_strlit("loud-reduction");
    reveal_strlit("ls");
    reveal_strlit("m");
    reveal_strlit("mic");
    reveal_strlit("mode");
    reveal_strlit("mute");
    reveal_strlit("obanc");
    reveal_strlit("one-bud-anc");
    reveal_strlit("p");
    reveal_strlit("pair");
    reveal_strlit("ping");
    reveal_strlit("profile");
    reveal_strlit("s");
    reveal_strlit("spatial");
    reveal_strlit("status");
    reveal_strlit("tone");
    reveal_strlit("tone-on-press");
    reveal_strlit("unpair");
    reveal_strlit("v");
    reveal_strlit("vol");
    reveal_strlit("volume");
    reveal_strlit("w");
    reveal_strlit("watch");
    assert("anc-strength"@.len() == 12);
    assert("auto"@.len() == 4);
    assert("auto-anc"@.len() == 8);
    assert("auto-connect"@.len() == 12);
    assert("b"@.len() == 1);
    assert("bat"@.len() == 3);
    assert("battery"@.len() == 7);
    assert("c"@.len() == 1);
    assert("chime"@.len() == 5);
    assert("chime-volume"@.len() == 12);
    assert("connect"@.len() == 7);
    assert("conv"@.len() == 4);
    assert("dc"@.len() == 2);
    assert("default"@.len() == 7);
    assert("default-sink"@.len() == 12);
    assert("disconnect"@.len() == 10);
    assert("ear"@.len() == 3);
    assert("ear-detection"@.len() == 13);
    assert("forget"@.len() == 6);
    assert("list"@.len() == 4);
    assert("loud"@.len() == 4);
    assert("loud-reduction"@.len() == 14);
    assert("ls"@.len() == 2);
    assert("m"@.len() == 1);
    assert("mic"@.len() == 3);
    assert("mode"@.len() == 4);
    assert("mute"@.len() == 4);
    assert("obanc"@.len() == 5);
    assert("one-bud-anc"@.len() == 11);
    assert("p"@.len() == 1);
    assert("pair"@.len() == 4);
    assert("ping"@.len() == 4);
    assert("profile"@.len() == 7);
    assert("s"@.len() == 1);
    assert("spatial"@.len() == 7);
    assert("status"@.len() == 6);
    assert("tone"@.len() == 4);
    assert("tone-on-press"@.len() == 13);
    assert("unpair"@.len() == 6);
    assert("v"@.len() == 1);
    assert("vol"@.len() == 3);
    assert("volume"@.len() == 6);
    assert("w"@.len() == 1);
    assert("watch"@.len() == 5);
    assert("mode"@[0] != "auto"@[0]);
    assert("mode"@[0] != "conv"@[0]);
    assert("mode"@[0] != "list"@[0]);
    assert("mode"@[0] != "loud"@[0]);
    assert("mode"@[1] != "mute"@[1]);
    assert("mode"@[0] != "pair"@[0]);
    assert("mode"@[0] != "ping"@[0]);
    assert("mode"@[0] != "tone"@[0]);
    assert("m"@[0] != "b"@[0]);
    assert("m"@[0] != "c"@[0]);
    assert("m"@[0] != "p"@[0]);
    assert("m"@[0] != "s"@[0]);
    assert("m"@[0] != "v"@[0]);
    assert("m"@[0] != "w"@[0]);
    assert("conv"@[0] != "auto"@[0]);
    assert("conv"@[0] != "list"@[0]);
    assert("conv"@[0] != "loud"@[0]);
    assert("conv"@[0] != "mode"@[0]);
    assert("conv"@[0] != "mute"@[0]);
    assert("conv"@[0] != "pair"@[0]);
    assert("conv"@[0] != "ping"@[0]);
    assert("conv"@[0] != "tone"@[0]);
    assert("c"@[0] != "b"@[0]);
    assert("c"@[0] != "m"@[0]);
    assert("c"@[0] != "p"@[0]);
    assert("c"@[0] != "s"@[0]);
    assert("c"@[0] != "v"@[0]);
    assert("c"@[0] != "w"@[0]);
    assert("spatial"@[0] != "battery"@[0]);
    assert("spatial"@[0] != "connect"@[0]);
    assert("spatial"@[0] != "default"@[0]);
    assert("spatial"@[0] != "profile"@[0]);
    assert("mic"@[0] != "bat"@[0]);
    assert("mic"@[0] != "ear"@[0]);
    assert("mic"@[0] != "vol"@[0]);
    assert("profile"@[0] != "battery"@[0]);
    assert("profile"@[0] != "connect"@[0]);
    assert("profile"@[0] != "default"@[0]);
    assert("profile"@[0] != "spatial"@[0]);
    assert("p"@[0] != "b"@[0]);
    assert("p"@[0] != "c"@[0]);
    assert("p"@[0] != "m"@[0]);
    assert("p"@[0] != "s"@[0]);
    assert("p"@[0] != "v"@[0]);
    assert("p"@[0] != "w"@[0]);
}

/// The level verbs with a level of 0 to 100 written in decimal:
/// `volume`, `vol` and `v` set the sink volume to it, and `chime` and
/// `chime-volume` set the chime volume to it.
pub proof fn lemma_level_verbs(n: nat)
    requires
        n <= 100,
    ensures
        verb_result("volume"@, seq![decimal(n)]) == Ok::<Parsed, Seq<char>>(Parsed::Req(Request::SetVolume { percent: n as u8 })),
        verb_result("vol"@, seq![decimal(n)]) == Ok::<Parsed, Seq<char>>(Parsed::Req(Request::SetVolume { percent: n as u8 })),
        verb_result("v"@, seq![decimal(n)]) == Ok::<Parsed, Seq<char>>(Parsed::Req(Request::SetVolume { percent: n as u8 })),
        verb_result("chime"@, seq![decimal(n)]) == Ok::<Parsed, Seq<char>>(Parsed::Req(Request::SetChimeVolume { level: n as u8 })),
        verb_result("chime-volume"@, seq![decimal(n)]) == Ok::<Parsed, Seq<char>>(Parsed::Req(Request::SetChimeVolume { level: n as u8 })),
{
    lemma_level_verb_classes();
    crate::text::lemma_parse_decimal(n, 255);
}

/// The on/off verbs, with an argument that reads as `b`: `ear` and
/// `ear-detection` set ear detection, `loud-reduction` and `loud` set
/// loud-sound reduction, `tone-on-press` and `tone` set the press tone,
/// `auto-connect` and `auto` set auto-connect, `mute` mutes the sink, and
/// `one-bud-anc` and `obanc` set one-bud noise cancellation, each to `b`.
pub proof fn lemma_switch_verbs(rest: Seq<Seq<char>>, b: bool)
    requires
        rest.len() >= 1,
        switch_named(key(rest[0])) == Some(b),
    ensures
        verb_result("ear"@, rest) == Ok::<Parsed, Seq<char>>(Parsed::Req(Request::SetEarDetection { on: b })),
        verb_result("ear-detection"@, rest) == Ok::<Parsed, Seq<char>>(Parsed::Req(Request::SetEarDetection { on: b })),
        verb_result("loud-reduction"@, rest) == Ok::<Parsed, Seq<char>>(Parsed::Req(Request::SetLoudReduction { on: b })),
        verb_result("loud"@, rest) == Ok::<Parsed, Seq<char>>(Parsed::Req(Request::SetLoudReduction { on: b })),
        verb_result("tone-on-press"@, rest) == Ok::<Parsed, Seq<char>>(Parsed::Req(Request::SetToneOnPress { on: b })),
        verb_result("tone"@, rest) == Ok::<Parsed, Seq<char>>(Parsed::Req(Request::SetToneOnPress { on: b })),
        verb_result("auto-connect"@, rest) == Ok::<Parsed, Seq<char>>(Parsed::Req(Request::SetAutoConnect { on: b })),
        verb_result("auto"@, rest) == Ok::<Parsed, Seq<char>>(Parsed::Req(Request::SetAutoConnect { on: b })),
        verb_result("mute"@, rest) == Ok::<Parsed, Seq<char>>(Parsed::Req(Request::SetMuted { muted: b })),
        verb_result("one-bud-anc"@, rest) == Ok::<Parsed, Seq<char>>(Parsed::Req(Request::SetOneBudAnc { on: b })),
        verb_result("obanc"@, rest) == Ok::<Parsed, Seq<char>>(Parsed::Req(Request::SetOneBudAnc { on: b })),
{
    lemma_switch_verb_classes();
}

/// The verbs that take a named value: `mode`/`m` with an argument naming
/// `m` set the noise-control mode to it, `conv`/`c` with an on/off
/// argument set conversation awareness accordingly, `mic` sets the
/// microphone, and `profile`/`p` the audio profile, to the value named.
pub proof fn lemma_named_value_verbs(
    a: Seq<char>,
    m: Mode,
    c: ConvAwareness,
    mic: MicSelection,
    p: Profile,
)
    ensures
        mode_named(key(a)) == Some(m) ==> (verb_result("mode"@, seq![a]) == Ok::<Parsed, Seq<char>>(
            Parsed::Req(Request::SetMode { mode: m }),
        ) && verb_result("m"@, seq![a]) == Ok::<Parsed, Seq<char>>(
            Parsed::Req(Request::SetMode { mode: m }),
        )),
        switch_named(key(a)) == Some(c == ConvAwareness::On) ==> (verb_result("conv"@, seq![a])
            == Ok::<Parsed, Seq<char>>(Parsed::Req(Request::SetConv { conv: c }))
            && verb_result("c"@, seq![a]) == Ok::<Parsed, Seq<char>>(
            Parsed::Req(Request::SetConv { conv: c }),
        )),
        mic_named(key(a)) == Some(mic) ==> verb_result("mic"@, seq![a]) == Ok::<Parsed, Seq<char>>(
            Parsed::Req(Request::SetMic { mic: mic }),
        ),
        profile_named(key(a)) == Some(p) ==> (verb_result("profile"@, seq![a]) == Ok::<
            Parsed,
            Seq<char>,
        >(Parsed::Req(Request::SetProfile { profile: p })) && verb_result("p"@, seq![a]) == Ok::<
            Parsed,
            Seq<char>,
        >(Parsed::Req(Request::SetProfile { profile: p }))),
{
    lemma_typed_verb_classes();
    assert(c == if c == ConvAwareness::On {
        ConvAwareness::On
    } else {
        ConvAwareness::Off
    });
}

fn plain_request(v: &Vec<char>) -> (r: Option<Request>)
    ensures
        r == plain_verb(v@),
{
    if eq_str(v, "status") || eq_str(v, "s") {
        Some(Request::Status)
    } else if eq_str(v, "battery") || eq_str(v, "bat") || eq_str(v, "b") {
        Some(Request::Battery)
    } else if eq_str(v, "ping") {
        Some(Request::Ping)
    } else if eq_str(v, "connect") {
        Some(Request::Connect)
    } else if eq_str(v, "disconnect") || eq_str(v, "dc") {
        Some(Request::Disconnect)
    } else if eq_str(v, "pair") {
        Some(Request::Pair)
    } else if eq_str(v, "unpair") || eq_str(v, "forget") {
        Some(Request::Unpair)
    } else if eq_str(v, "list") || eq_str(v, "ls") {
        Some(Request::List)
    } else if eq_str(v, "default") || eq_str(v, "default-sink") {
        Some(Request::MakeDefaultSink)
    } else if eq_str(v, "watch") || eq_str(v, "w") {
        Some(Request::Watch)
    } else {
        None
    }
}

fn switch_kind(v: &Vec<char>) -> (r: Option<u8>)
    ensures
        r == switch_verb(v@),
{
    if eq_str(v, "ear") || eq_str(v, "ear-detection") {
        Some(1)
    } else if eq_str(v, "loud-reduction") || eq_str(v, "loud") {
        Some(2)
    } else if eq_str(v, "tone-on-press") || eq_str(v, "tone") {
        Some(3)
    } else if eq_str(v, "auto-connect") || eq_str(v, "auto") {
        Some(4)
    } else if eq_str(v, "mute") {
        Some(5)
    } else if eq_str(v, "one-bud-anc") || eq_str(v, "obanc") {
        Some(6)
    } else {
        None
    }
}

fn level_kind(v: &Vec<char>) -> (r: Option<u8>)
    ensures
        r == level_verb(v@),
{
    if eq_str(v, "volume") || eq_str(v, "vol") || eq_str(v, "v") {
        Some(1)
    } else if eq_str(v, "chime") || eq_str(v, "chime-volume") {
        Some(2)
    } else if eq_str(v, "auto-anc") || eq_str(v, "anc-strength") {
        Some(3)
    } else {
        None
    }
}

fn parse_level(rest: &[String], verb: &str, k: u8) -> (r: Result<u8, CliError>)
    requires
        1 <= k <= 3,
    ensures
        usage_result(r, level_arg(strs_view(rest@), verb@, k)),
{
    let raw = match require_arg(rest, verb, "0..100") {
        Ok(a) => a,
        Err(e) => {
            return Err(e);
        },
    };
    let label = if k == 1 {
        "volume"
    } else if k == 2 {
        "chime"
    } else {
        "auto-anc"
    };
    match parse_unsigned_chars(&chars_of(raw), 255) {
        None => {
            let mut d = owned("expected 0..100, got '");
            push_str(&mut d, raw);
            push_str(&mut d, "'");
            Err(verb_error(label, d.as_str()))
        },
        Some(n) => {
            if n > 100 {
                let mut d = owned("expected 0..100, got ");
                push_chars(&mut d, &decimal_chars(n));
                Err(verb_error(label, d.as_str()))
            } else {
                Ok(n as u8)
            }
        },
    }
}

fn typed_error(verb: &str, e: String) -> (r: CliError)
    ensures
        r.code == exitcode::USAGE,
        r.msg@ == verb_msg(verb@, e@),
{
    verb_error(verb, e.as_str())
}

/// Turns `podctl <verb> <rest...>` into a request.
pub fn parse_verb(verb: &str, rest: &[String]) -> (r: Result<Request, CliError>)
    ensures
        match r {
            Ok(req) => verb_result(verb@, strs_view(rest@)) matches Ok(p) && fits(req, p),
            Err(e) => e.code == exitcode::USAGE && verb_result(verb@, strs_view(rest@)) == Err::<
                Parsed,
                Seq<char>,
            >(e.msg@),
        },
{
    let v = chars_of(verb);
    let ghost rs = strs_view(rest@);
    if let Some(req) = plain_request(&v) {
        return Ok(req);
    }
    if let Some(k) = switch_kind(&v) {
        let b = match parse_on_off(rest, verb) {
            Ok(b) => b,
            Err(e) => {
                return Err(e);
            },
        };
        let req = if k == 1 {
            Request::SetEarDetection { on: b }
        } else if k == 2 {
            Request::SetLoudReduction { on: b }
        } else if k == 3 {
            Request::SetToneOnPress { on: b }
        } else if k == 4 {
            Request::SetAutoConnect { on: b }
        } else if k == 5 {
            Request::SetMuted { muted: b }
        } else {
            Request::SetOneBudAnc { on: b }
        };
        return Ok(req);
    }
    if let Some(k) = level_kind(&v) {
        let n = match parse_level(rest, verb, k) {
            Ok(n) => n,
            Err(e) => {
                return Err(e);
            },
        };
        let req = if k == 1 {
            Request::SetVolume { percent: n }
        } else if k == 2 {
            Request::SetChimeVolume { level: n }
        } else {
            Request::SetAutoAncLevel { level: n }
        };
        return Ok(req);
    }
    parse_typed_verb(&v, verb, rest)
}

fn parse_typed_verb(v: &Vec<char>, verb: &str, rest: &[String]) -> (r: Result<Request, CliError>)
    requires
        v@ == verb@,
        plain_verb(verb@) is None,
        switch_verb(verb@) is None,
        level_verb(verb@) is None,
    ensures
        match r {
            Ok(req) => verb_result(verb@, strs_view(rest@)) matches Ok(p) && fits(req, p),
            Err(e) => e.code == exitcode::USAGE && verb_result(verb@, strs_view(rest@)) == Err::<
                Parsed,
                Seq<char>,
            >(e.msg@),
        },
{
    if eq_str(v, "mode") || eq_str(v, "m") {
        let raw = match require_arg(rest, verb, "off|anc|transparency|adaptive") {
            Ok(a) => a,
            Err(e) => {
                return Err(e);
            },
        };
        match Mode::parse(raw) {
            Ok(m) => Ok(Request::SetMode { mode: m }),
            Err(e) => Err(typed_error(verb, e)),
        }
    } else if eq_str(v, "conv") || eq_str(v, "c") {
        let raw = match require_arg(rest, verb, "on|off") {
            Ok(a) => a,
            Err(e) => {
                return Err(e);
            },
        };
        match ConvAwareness::parse(raw) {
            Ok(c) => Ok(Request::SetConv { conv: c }),
            Err(e) => Err(typed_error(verb, e)),
        }
    } else if eq_str(v, "spatial") {
        let raw = match require_arg(rest, verb, "off|fixed|head-tracked") {
            Ok(a) => a,
            Err(e) => {
                return Err(e);
            },
        };
        match SpatialAudio::parse(raw) {
            Ok(m) => Ok(Request::SetSpatial { mode: m }),
            Err(e) => Err(typed_error(verb, e)),
        }
    } else if eq_str(v, "mic") {
        let raw = match require_arg(rest, verb, "auto|left|right") {
            Ok(a) => a,
            Err(e) => {
                return Err(e);
            },
        };
        match MicSelection::parse(raw) {
            Ok(m) => Ok(Request::SetMic { mic: m }),
            Err(e) => Err(typed_error(verb, e)),
        }
    } else if eq_str(v, "profile") || eq_str(v, "p") {
        let raw = match require_arg(rest, verb, "high|headset|off") {
            Ok(a) => a,
            Err(e) => {
                return Err(e);
            },
        };
        match Profile::parse(raw) {
            Ok(p) => Ok(Request::SetProfile { profile: p }),
            Err(e) => Err(typed_error(verb, e)),
        }
    } else {
        parse_other_verb(v, verb, rest)
    }
}

fn parse_other_verb(v: &Vec<char>, verb: &str, rest: &[String]) -> (r: Result<Request, CliError>)
    requires
        v@ == verb@,
        plain_verb(verb@) is None,
        switch_verb(verb@) is None,
        level_verb(verb@) is None,
        !(verb@ == "mode"@ || verb@ == "m"@ || verb@ == "conv"@ || verb@ == "c"@ || verb@
            == "spatial"@ || verb@ == "mic"@ || verb@ == "profile"@ || verb@ == "p"@),
    ensures
        match r {
            Ok(req) => verb_result(verb@, strs_view(rest@)) matches Ok(p) && fits(req, p),
            Err(e) => e.code == exitcode::USAGE && verb_result(verb@, strs_view(rest@)) == Err::<
                Parsed,
                Seq<char>,
            >(e.msg@),
        },
{
    if eq_str(v, "press") {
        let first = if rest.len() > 0 {
            Some(rest[0].as_str())
        } else {
            None
        };
        let side = match parse_press_side(first) {
            Ok(s) => s,
            Err(e) => {
                return Err(e);
            },
        };
        if rest.len() <= 1 {
            return Err(needs_error(verb, "mode-cycle|siri|none"));
        }
        match PressAction::parse(rest[1].as_str()) {
            Ok(action) => Ok(Request::SetPressAction { side, action }),
            Err(e) => Err(typed_error(verb, e)),
        }
    } else if eq_str(v, "rename") {
        match require_arg(rest, verb, "\"new name\"") {
            Ok(a) => Ok(Request::Rename { name: owned(a) }),
            Err(e) => Err(e),
        }
    } else if eq_str(v, "codec") {
        match require_arg(rest, verb, "sbc|aac|aptx|ldac|…") {
            Ok(a) => Ok(Request::SetCodec { codec: owned(a) }),
            Err(e) => Err(e),
        }
    } else if eq_str(v, "latency") {
        let raw = match require_arg(rest, verb, "<ms> (negative ok)") {
            Ok(a) => a,
            Err(e) => {
                return Err(e);
            },
        };
        match parse_signed_chars(&chars_of(raw), -0x8000_0000, 0x7fff_ffff) {
            Some(ms) => Ok(Request::SetLatencyOffset { ms: ms as i32 }),
            None => {
                let mut d = owned("expected integer ms, got '");
                push_str(&mut d, raw);
                push_str(&mut d, "'");
                Err(verb_error("latency", d.as_str()))
            },
        }
    } else {
        let mut m = owned("unknown command '");
        push_str(&mut m, verb);
        push_str(&mut m, "'. run 'podctl help' for the full list.");
        Err(CliError::usage(m))
    }
}

// ---------------------------------------------------------------------
// Routing and exit codes
// ---------------------------------------------------------------------

/// Where a command line goes. Verbs and topics are read from the
/// arguments themselves (`args[0]`, `args[1]`).
#[derive(Clone, Copy, Debug, PartialEq, Eq, Structural)]
pub enum Route {
    /// Top-level help (the topic, if any, is `args[1]`).
    Help,
    Version,
    /// Shell completion (the shell, if any, is `args[1]`).
    Completion,
    /// Make the daemon broadcast a case-lid event.
    DebugCaseLid(bool),
    /// Print the debug report.
    Debug { no_redact: bool },
    Meter,
    Install,
    Tray,
    Popup,
    Reboot,
    Uninstall,
    /// Help for the verb `args[0]`.
    VerbHelp,
    Watch,
    /// Send the request that `args[0]` names.
    Verb,
}

pub open spec fn any_is(a: Seq<Seq<char>>, x: Seq<char>) -> bool {
    exists|i: int| 0 <= i < a.len() && a[i] == x
}

pub open spec fn wants_help(a: Seq<Seq<char>>) -> bool {
    any_is(a, "--help"@) || any_is(a, "-h"@)
}

pub open spec fn lid_usage_msg() -> Seq<char> {
    "debug emit-case-lid: expected `open` or `close`"@
}

/// The route of a command line (after `--json` was taken out).
pub open spec fn route_of(a: Seq<Seq<char>>) -> Result<Route, Seq<char>> {
    if a.len() == 0 || a[0] == "help"@ || a[0] == "-h"@ || a[0] == "--help"@ {
        Ok(Route::Help)
    } else {
        let v = a[0];
        if v == "version"@ || v == "--version"@ || v == "-V"@ {
            Ok(Route::Version)
        } else if v == "completion"@ {
            Ok(Route::Completion)
        } else if v == "debug"@ {
            if a.len() > 1 && a[1] == "emit-case-lid"@ {
                if a.len() > 2 && a[2] == "open"@ {
                    Ok(Route::DebugCaseLid(true))
                } else if a.len() > 2 && a[2] == "close"@ {
                    Ok(Route::DebugCaseLid(false))
                } else {
                    Err(lid_usage_msg())
                }
            } else {
                Ok(Route::Debug { no_redact: any_is(a, "--no-redact"@) })
            }
        } else if v == "meter"@ {
            Ok(Route::Meter)
        } else if v == "tray"@ {
            Ok(Route::Tray)
        } else if wants_help(a) {
            Ok(Route::VerbHelp)
        } else if v == "install"@ {
            Ok(Route::Install)
        } else if v == "popup"@ {
            Ok(Route::Popup)
        } else if v == "reboot"@ {
            Ok(Route::Reboot)
        } else if v == "uninstall"@ {
            Ok(Route::Uninstall)
        } else if v == "watch"@ || v == "w"@ {
            Ok(Route::Watch)
        } else {
            Ok(Route::Verb)
        }
    }
}

fn any_arg(args: &Vec<String>, x: &str) -> (b: bool)
    ensures
        b == any_is(strs_view(args@), x@),
{
    let mut i: usize = 0;
    while i < args.len()
        invariant
            i <= args.len(),
            forall|j: int| 0 <= j < i ==> strs_view(args@)[j] != x@,
        decreases args.len() - i,
    {
        if eq_str(&chars_of(args[i].as_str()), x) {
            assert(strs_view(args@)[i as int] == x@);
            return true;
        }
        i += 1;
    }
    false
}

fn arg_is(args: &Vec<String>, i: usize, x: &str) -> (b: bool)
    ensures
        b == (i < args@.len() && args@[i as int]@ == x@),
{
    i < args.len() && eq_str(&chars_of(args[i].as_str()), x)
}

/// Decides where a command line goes.
pub fn route(args: &Vec<String>) -> (r: Result<Route, CliError>)
    ensures
        usage_result(r, route_of(strs_view(args@))),
{
    let ghost a = strs_view(args@);
    if args.len() == 0 || arg_is(args, 0, "help") || arg_is(args, 0, "-h") || arg_is(
        args,
        0,
        "--help",
    ) {
        return Ok(Route::Help);
    }
    assert(a[0] == args@[0]@);
    if arg_is(args, 0, "version") || arg_is(args, 0, "--version") || arg_is(args, 0, "-V") {
        Ok(Route::Version)
    } else if arg_is(args, 0, "completion") {
        Ok(Route::Completion)
    } else if arg_is(args, 0, "debug") {
        if arg_is(args, 1, "emit-case-lid") {
            if arg_is(args, 2, "open") {
                Ok(Route::DebugCaseLid(true))
            } else if arg_is(args, 2, "close") {
                Ok(Route::DebugCaseLid(false))
            } else {
                Err(CliError::usage(owned("debug emit-case-lid: expected `open` or `close`")))
            }
        } else {
            Ok(Route::Debug { no_redact: any_arg(args, "--no-redact") })
        }
    } else if arg_is(args, 0, "meter") {
        Ok(Route::Meter)
    } else if arg_is(args, 0, "tray") {
        Ok(Route::Tray)
    } else if any_arg(args, "--help") || any_arg(args, "-h") {
        Ok(Route::VerbHelp)
    } else if arg_is(args, 0, "install") {
        Ok(Route::Install)
    } else if arg_is(args, 0, "popup") {
        Ok(Route::Popup)
    } else if arg_is(args, 0, "reboot") {
        Ok(Route::Reboot)
    } else if arg_is(args, 0, "uninstall") {
        Ok(Route::Uninstall)
    } else if arg_is(args, 0, "watch") || arg_is(args, 0, "w") {
        Ok(Route::Watch)
    } else {
        Ok(Route::Verb)
    }
}

/// The exit code a reply ends the command with: with `--json` only an
/// error fails; otherwise an error is "unavailable" and an event (which
/// a single-shot call never expects) a software error.
pub open spec fn reply_code(r: Response, json: bool) -> i32 {
    if json {
        if r is Error {
            exitcode::UNAVAILABLE
        } else {
            exitcode::OK
        }
    } else {
        match r {
            Response::Event(_) => exitcode::SOFTWARE,
            Response::Error(_) => exitcode::UNAVAILABLE,
            _ => exitcode::OK,
        }
    }
}

pub fn response_code(resp: &Response, json: bool) -> (c: i32)
    ensures
        c == reply_code(*resp, json),
{
    if json {
        if resp.is_err() {
            exitcode::UNAVAILABLE
        } else {
            exitcode::OK
        }
    } else {
        match resp {
            Response::Event(_) => exitcode::SOFTWARE,
            Response::Error(_) => exitcode::UNAVAILABLE,
            _ => exitcode::OK,
        }
    }
}

/// The exit code of `podctl reboot`: nothing installed is "unavailable",
/// a failed restart a software error.
pub fn reboot_code(restarted: u32, failed: bool) -> (c: i32)
    ensures
        c == (if restarted == 0 {
            exitcode::UNAVAILABLE
        } else if failed {
            exitcode::SOFTWARE
        } else {
            exitcode::OK
        }),
{
    if restarted == 0 {
        exitcode::UNAVAILABLE
    } else if failed {
        exitcode::SOFTWARE
    } else {
        exitcode::OK
    }
}

} // verus!
