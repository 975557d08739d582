//! The device model shared by the daemon, the CLI, the tray and the popup.

use vstd::prelude::*;

use crate::caps::Capabilities;
use crate::text::{clone_opt, eq_str, key_of, lower, owned, push_str, trim};

verus! {

/// Battery levels in percent and charging flags of the two buds and the case.
#[derive(Clone, Copy, Debug, PartialEq, Eq, Structural)]
pub struct Battery {
    pub left: Option<u8>,
    pub right: Option<u8>,
    pub case: Option<u8>,
    pub left_charging: bool,
    pub right_charging: bool,
    pub case_charging: bool,
}

impl Battery {
    /// No level known, nothing charging.
    pub open spec fn empty() -> Battery {
        Battery {
            left: None,
            right: None,
            case: None,
            left_charging: false,
            right_charging: false,
            case_charging: false,
        }
    }
}

impl Default for Battery {
    fn default() -> (b: Battery)
        ensures
            b == Battery::empty(),
    {
        Battery {
            left: None,
            right: None,
            case: None,
            left_charging: false,
            right_charging: false,
            case_charging: false,
        }
    }
}

/// Listening (noise-control) mode.
#[derive(Clone, Copy, Debug, PartialEq, Eq, Structural)]
pub enum Mode {
    Off,
    NoiseCancellation,
    Transparency,
    Adaptive,
}

/// `"'"`-quoted message: `prefix` + `s` + `"'"`.
fn quoted(prefix: &str, s: &str) -> (r: String)
    ensures
        r@ == prefix@ + s@ + "'"@,
{
    let mut r = owned(prefix);
    push_str(&mut r, s);
    push_str(&mut r, "'");
    r
}

/// The mode a (trimmed, lowercased) word names.
pub open spec fn mode_named(k: Seq<char>) -> Option<Mode> {
    if k == "off"@ || k == "none"@ || k == "passive"@ {
        Some(Mode::Off)
    } else if k == "anc"@ || k == "nc"@ || k == "noise"@ || k == "noise-cancellation"@ {
        Some(Mode::NoiseCancellation)
    } else if k == "transparency"@ || k == "tr"@ || k == "trans"@ || k == "pass"@ {
        Some(Mode::Transparency)
    } else if k == "adaptive"@ || k == "ad"@ || k == "adapt"@ {
        Some(Mode::Adaptive)
    } else {
        None
    }
}

/// The word a parsed argument is matched on.
pub open spec fn key(s: Seq<char>) -> Seq<char> {
    lower(trim(s))
}

impl Mode {
    pub open spec fn label(self) -> Seq<char> {
        match self {
            Mode::Off => "off"@,
            Mode::NoiseCancellation => "anc"@,
            Mode::Transparency => "transparency"@,
            Mode::Adaptive => "adaptive"@,
        }
    }

    pub fn as_str(&self) -> (r: &'static str)
        ensures
            r@ == self.label(),
    {
        match self {
            Mode::Off => "off",
            Mode::NoiseCancellation => "anc",
            Mode::Transparency => "transparency",
            Mode::Adaptive => "adaptive",
        }
    }

    /// Parses a mode name or alias, ignoring surrounding whitespace and
    /// ASCII case.
    pub fn parse(s: &str) -> (r: Result<Mode, String>)
        ensures
            match r {
                Ok(m) => mode_named(key(s@)) == Some(m),
                Err(e) => mode_named(key(s@)) is None && e@ == "unknown mode '"@ + s@ + "'"@,
            },
    {
        let k = key_of(s);
        if eq_str(&k, "off") || eq_str(&k, "none") || eq_str(&k, "passive") {
            Ok(Mode::Off)
        } else if eq_str(&k, "anc") || eq_str(&k, "nc") || eq_str(&k, "noise") || eq_str(
            &k,
            "noise-cancellation",
        ) {
            Ok(Mode::NoiseCancellation)
        } else if eq_str(&k, "transparency") || eq_str(&k, "tr") || eq_str(&k, "trans") || eq_str(
            &k,
            "pass",
        ) {
            Ok(Mode::Transparency)
        } else if eq_str(&k, "adaptive") || eq_str(&k, "ad") || eq_str(&k, "adapt") {
            Ok(Mode::Adaptive)
        } else {
            Err(quoted("unknown mode '", s))
        }
    }
}

impl std::str::FromStr for Mode {
    type Err = String;

    fn from_str(s: &str) -> (r: Result<Mode, String>)
        ensures
            match r {
                Ok(m) => mode_named(key(s@)) == Some(m),
                Err(e) => mode_named(key(s@)) is None && e@ == "unknown mode '"@ + s@ + "'"@,
            },
    {
        Mode::parse(s)
    }
}

/// Conversation awareness on or off.
#[derive(Clone, Copy, Debug, PartialEq, Eq, Structural)]
pub enum ConvAwareness {
    On,
    Off,
}

/// The switch value a (trimmed, lowercased) word names.
pub open spec fn switch_named(k: Seq<char>) -> Option<bool> {
    if k == "on"@ || k == "1"@ || k == "true"@ || k == "yes"@ {
        Some(true)
    } else if k == "off"@ || k == "0"@ || k == "false"@ || k == "no"@ {
        Some(false)
    } else {
        None
    }
}

/// Reads an on/off word (`on|1|true|yes`, `off|0|false|no`).
pub fn switch_of(s: &str) -> (r: Option<bool>)
    ensures
        r == switch_named(key(s@)),
{
    let k = key_of(s);
    if eq_str(&k, "on") || eq_str(&k, "1") || eq_str(&k, "true") || eq_str(&k, "yes") {
        Some(true)
    } else if eq_str(&k, "off") || eq_str(&k, "0") || eq_str(&k, "false") || eq_str(&k, "no") {
        Some(false)
    } else {
        None
    }
}

impl ConvAwareness {
    pub fn parse(s: &str) -> (r: Result<ConvAwareness, String>)
        ensures
            match r {
                Ok(c) => switch_named(key(s@)) == Some(c == ConvAwareness::On),
                Err(e) => switch_named(key(s@)) is None && e@ == "expected 'on' or 'off', got '"@
                    + s@ + "'"@,
            },
    {
        match switch_of(s) {
            Some(true) => Ok(ConvAwareness::On),
            Some(false) => Ok(ConvAwareness::Off),
            None => Err(quoted("expected 'on' or 'off', got '", s)),
        }
    }
}

impl std::str::FromStr for ConvAwareness {
    type Err = String;

    fn from_str(s: &str) -> (r: Result<ConvAwareness, String>)
        ensures
            match r {
                Ok(c) => switch_named(key(s@)) == Some(c == ConvAwareness::On),
                Err(e) => switch_named(key(s@)) is None && e@ == "expected 'on' or 'off', got '"@
                    + s@ + "'"@,
            },
    {
        ConvAwareness::parse(s)
    }
}

/// Bluetooth audio profile.
#[derive(Clone, Copy, Debug, PartialEq, Eq, Structural)]
pub enum Profile {
    HighQuality,
    Headset,
    Off,
}

pub open spec fn profile_named(k: Seq<char>) -> Option<Profile> {
    if k == "high"@ || k == "a2dp"@ || k == "music"@ || k == "stereo"@ {
        Some(Profile::HighQuality)
    } else if k == "headset"@ || k == "hsp"@ || k == "hfp"@ || k == "call"@ || k == "mic"@ {
        Some(Profile::Headset)
    } else if k == "off"@ || k == "disabled"@ || k == "none"@ {
        Some(Profile::Off)
    } else {
        None
    }
}

impl Profile {
    pub open spec fn label(self) -> Seq<char> {
        match self {
            Profile::HighQuality => "high"@,
            Profile::Headset => "headset"@,
            Profile::Off => "off"@,
        }
    }

    pub fn as_str(&self) -> (r: &'static str)
        ensures
            r@ == self.label(),
    {
        match self {
            Profile::HighQuality => "high",
            Profile::Headset => "headset",
            Profile::Off => "off",
        }
    }

    pub fn parse(s: &str) -> (r: Result<Profile, String>)
        ensures
            match r {
                Ok(p) => profile_named(key(s@)) == Some(p),
                Err(e) => profile_named(key(s@)) is None && e@ == "unknown profile '"@ + s@
                    + "'"@,
            },
    {
        let k = key_of(s);
        if eq_str(&k, "high") || eq_str(&k, "a2dp") || eq_str(&k, "music") || eq_str(
            &k,
            "stereo",
        ) {
            Ok(Profile::HighQuality)
        } else if eq_str(&k, "headset") || eq_str(&k, "hsp") || eq_str(&k, "hfp") || eq_str(
            &k,
            "call",
        ) || eq_str(&k, "mic") {
            Ok(Profile::Headset)
        } else if eq_str(&k, "off") || eq_str(&k, "disabled") || eq_str(&k, "none") {
            Ok(Profile::Off)
        } else {
            Err(quoted("unknown profile '", s))
        }
    }
}

impl std::str::FromStr for Profile {
    type Err = String;

    fn from_str(s: &str) -> (r: Result<Profile, String>)
        ensures
            match r {
                Ok(p) => profile_named(key(s@)) == Some(p),
                Err(e) => profile_named(key(s@)) is None && e@ == "unknown profile '"@ + s@
                    + "'"@,
            },
    {
        Profile::parse(s)
    }
}

/// Spatial audio setting.
#[derive(Clone, Copy, Debug, PartialEq, Eq, Structural)]
pub enum SpatialAudio {
    Off,
    Fixed,
    HeadTracked,
}

pub open spec fn spatial_named(k: Seq<char>) -> Option<SpatialAudio> {
    if k == "off"@ || k == "none"@ {
        Some(SpatialAudio::Off)
    } else if k == "fixed"@ || k == "stereo"@ {
        Some(SpatialAudio::Fixed)
    } else if k == "head-tracked"@ || k == "head"@ || k == "tracked"@ || k == "ht"@ {
        Some(SpatialAudio::HeadTracked)
    } else {
        None
    }
}

impl SpatialAudio {
    pub open spec fn label(self) -> Seq<char> {
        match self {
            SpatialAudio::Off => "off"@,
            SpatialAudio::Fixed => "fixed"@,
            SpatialAudio::HeadTracked => "head-tracked"@,
        }
    }

    pub fn as_str(&self) -> (r: &'static str)
        ensures
            r@ == self.label(),
    {
        match self {
            SpatialAudio::Off => "off",
            SpatialAudio::Fixed => "fixed",
            SpatialAudio::HeadTracked => "head-tracked",
        }
    }

    pub fn parse(s: &str) -> (r: Result<SpatialAudio, String>)
        ensures
            match r {
                Ok(m) => spatial_named(key(s@)) == Some(m),
                Err(e) => spatial_named(key(s@)) is None && e@ == "unknown spatial-audio mode '"@
                    + s@ + "'"@,
            },
    {
        let k = key_of(s);
        if eq_str(&k, "off") || eq_str(&k, "none") {
            Ok(SpatialAudio::Off)
        } else if eq_str(&k, "fixed") || eq_str(&k, "stereo") {
            Ok(SpatialAudio::Fixed)
        } else if eq_str(&k, "head-tracked") || eq_str(&k, "head") || eq_str(&k, "tracked")
            || eq_str(&k, "ht") {
            Ok(SpatialAudio::HeadTracked)
        } else {
            Err(quoted("unknown spatial-audio mode '", s))
        }
    }
}

impl std::str::FromStr for SpatialAudio {
    type Err = String;

    fn from_str(s: &str) -> (r: Result<SpatialAudio, String>)
        ensures
            match r {
                Ok(m) => spatial_named(key(s@)) == Some(m),
                Err(e) => spatial_named(key(s@)) is None && e@ == "unknown spatial-audio mode '"@
                    + s@ + "'"@,
            },
    {
        SpatialAudio::parse(s)
    }
}

/// Which bud's microphone is used.
#[derive(Clone, Copy, Debug, PartialEq, Eq, Structural)]
pub enum MicSelection {
    Auto,
    AlwaysLeft,
    AlwaysRight,
}

pub open spec fn mic_named(k: Seq<char>) -> Option<MicSelection> {
    if k == "auto"@ {
        Some(MicSelection::Auto)
    } else if k == "left"@ || k == "l"@ {
        Some(MicSelection::AlwaysLeft)
    } else if k == "right"@ || k == "r"@ {
        Some(MicSelection::AlwaysRight)
    } else {
        None
    }
}

impl MicSelection {
    pub open spec fn label(self) -> Seq<char> {
        match self {
            MicSelection::Auto => "auto"@,
            MicSelection::AlwaysLeft => "left"@,
            MicSelection::AlwaysRight => "right"@,
        }
    }

    pub fn as_str(&self) -> (r: &'static str)
        ensures
            r@ == self.label(),
    {
        match self {
            MicSelection::Auto => "auto",
            MicSelection::AlwaysLeft => "left",
            MicSelection::AlwaysRight => "right",
        }
    }

    pub fn parse(s: &str) -> (r: Result<MicSelection, String>)
        ensures
            match r {
                Ok(m) => mic_named(key(s@)) == Some(m),
                Err(e) => mic_named(key(s@)) is None && e@ == "expected 'auto', 'left' or 'right', got '"@
                    + s@ + "'"@,
            },
    {
        let k = key_of(s);
        if eq_str(&k, "auto") {
            Ok(MicSelection::Auto)
        } else if eq_str(&k, "left") || eq_str(&k, "l") {
            Ok(MicSelection::AlwaysLeft)
        } else if eq_str(&k, "right") || eq_str(&k, "r") {
            Ok(MicSelection::AlwaysRight)
        } else {
            Err(quoted("expected 'auto', 'left' or 'right', got '", s))
        }
    }
}

impl std::str::FromStr for MicSelection {
    type Err = String;

    fn from_str(s: &str) -> (r: Result<MicSelection, String>)
        ensures
            match r {
                Ok(m) => mic_named(key(s@)) == Some(m),
                Err(e) => mic_named(key(s@)) is None && e@ == "expected 'auto', 'left' or 'right', got '"@
                    + s@ + "'"@,
            },
    {
        MicSelection::parse(s)
    }
}

/// What a press-and-hold triggers.
#[derive(Clone, Copy, Debug, PartialEq, Eq, Structural)]
pub enum PressAction {
    ModeCycle,
    Siri,
    NoAction,
}

pub open spec fn press_action_named(k: Seq<char>) -> Option<PressAction> {
    if k == "mode-cycle"@ || k == "cycle"@ || k == "mode"@ {
        Some(PressAction::ModeCycle)
    } else if k == "siri"@ {
        Some(PressAction::Siri)
    } else if k == "none"@ || k == "noop"@ || k == "off"@ {
        Some(PressAction::NoAction)
    } else {
        None
    }
}

impl PressAction {
    pub open spec fn label(self) -> Seq<char> {
        match self {
            PressAction::ModeCycle => "mode-cycle"@,
            PressAction::Siri => "siri"@,
            PressAction::NoAction => "none"@,
        }
    }

    pub fn as_str(&self) -> (r: &'static str)
        ensures
            r@ == self.label(),
    {
        match self {
            PressAction::ModeCycle => "mode-cycle",
            PressAction::Siri => "siri",
            PressAction::NoAction => "none",
        }
    }

    pub fn parse(s: &str) -> (r: Result<PressAction, String>)
        ensures
            match r {
                Ok(a) => press_action_named(key(s@)) == Some(a),
                Err(e) => press_action_named(key(s@)) is None && e@ == "unknown press-action '"@
                    + s@ + "'"@,
            },
    {
        let k = key_of(s);
        if eq_str(&k, "mode-cycle") || eq_str(&k, "cycle") || eq_str(&k, "mode") {
            Ok(PressAction::ModeCycle)
        } else if eq_str(&k, "siri") {
            Ok(PressAction::Siri)
        } else if eq_str(&k, "none") || eq_str(&k, "noop") || eq_str(&k, "off") {
            Ok(PressAction::NoAction)
        } else {
            Err(quoted("unknown press-action '", s))
        }
    }
}

impl std::str::FromStr for PressAction {
    type Err = String;

    fn from_str(s: &str) -> (r: Result<PressAction, String>)
        ensures
            match r {
                Ok(a) => press_action_named(key(s@)) == Some(a),
                Err(e) => press_action_named(key(s@)) is None && e@ == "unknown press-action '"@
                    + s@ + "'"@,
            },
    {
        PressAction::parse(s)
    }
}

/// Where one bud is.
#[derive(Clone, Copy, Debug, PartialEq, Eq, Structural)]
pub enum EarStatus {
    Unknown,
    InEar,
    OutOfEar,
    InCase,
}

impl Default for EarStatus {
    fn default() -> (s: EarStatus)
        ensures
            s == EarStatus::Unknown,
    {
        EarStatus::Unknown
    }
}

impl EarStatus {
    pub open spec fn label(self) -> Seq<char> {
        match self {
            EarStatus::Unknown => "—"@,
            EarStatus::InEar => "in ear"@,
            EarStatus::OutOfEar => "out"@,
            EarStatus::InCase => "in case"@,
        }
    }

    pub fn as_str(&self) -> (r: &'static str)
        ensures
            r@ == self.label(),
    {
        match self {
            EarStatus::Unknown => "—",
            EarStatus::InEar => "in ear",
            EarStatus::OutOfEar => "out",
            EarStatus::InCase => "in case",
        }
    }
}

/// Ear status as AAP reports it: primary (the bud driving audio) and
/// secondary. Left and right cannot be recovered from the wire alone.
#[derive(Clone, Copy, Debug, PartialEq, Eq, Structural)]
pub struct InEar {
    pub primary: EarStatus,
    pub secondary: EarStatus,
}

impl Default for InEar {
    fn default() -> (s: InEar)
        ensures
            s == (InEar { primary: EarStatus::Unknown, secondary: EarStatus::Unknown }),
    {
        InEar { primary: EarStatus::Unknown, secondary: EarStatus::Unknown }
    }
}

impl InEar {
    pub open spec fn in_ear_count(self) -> nat {
        (if self.primary == EarStatus::InEar {
            1nat
        } else {
            0nat
        }) + (if self.secondary == EarStatus::InEar {
            1nat
        } else {
            0nat
        })
    }

    pub fn any_in_ear(&self) -> (b: bool)
        ensures
            b == (self.primary == EarStatus::InEar || self.secondary == EarStatus::InEar),
    {
        self.primary == EarStatus::InEar || self.secondary == EarStatus::InEar
    }

    pub fn count_in_ear(&self) -> (n: u8)
        ensures
            n == self.in_ear_count(),
    {
        (if self.primary == EarStatus::InEar {
            1u8
        } else {
            0u8
        }) + (if self.secondary == EarStatus::InEar {
            1u8
        } else {
            0u8
        })
    }
}

/// Press counters per bud and kind.
#[derive(Clone, Copy, Debug, PartialEq, Eq, Structural)]
pub struct PressCounts {
    pub left_single: u32,
    pub left_double: u32,
    pub left_triple: u32,
    pub left_long: u32,
    pub right_single: u32,
    pub right_double: u32,
    pub right_triple: u32,
    pub right_long: u32,
}

impl PressCounts {
    pub open spec fn zero() -> PressCounts {
        PressCounts {
            left_single: 0,
            left_double: 0,
            left_triple: 0,
            left_long: 0,
            right_single: 0,
            right_double: 0,
            right_triple: 0,
            right_long: 0,
        }
    }
}

impl Default for PressCounts {
    fn default() -> (p: PressCounts)
        ensures
            p == PressCounts::zero(),
    {
        PressCounts {
            left_single: 0,
            left_double: 0,
            left_triple: 0,
            left_long: 0,
            right_single: 0,
            right_double: 0,
            right_triple: 0,
            right_long: 0,
        }
    }
}

/// Firmware, serials and colour as the buds report them.
#[derive(Clone, Debug, PartialEq, Eq)]
pub struct DeviceInfo {
    pub firmware_left: Option<String>,
    pub firmware_right: Option<String>,
    pub firmware_case: Option<String>,
    pub serial_left: Option<String>,
    pub serial_right: Option<String>,
    pub serial_case: Option<String>,
    pub color: Option<String>,
}

impl DeviceInfo {
    pub open spec fn is_empty(self) -> bool {
        &&& self.firmware_left is None
        &&& self.firmware_right is None
        &&& self.firmware_case is None
        &&& self.serial_left is None
        &&& self.serial_right is None
        &&& self.serial_case is None
        &&& self.color is None
    }
}

impl DeviceInfo {
    pub fn duplicate(&self) -> (r: DeviceInfo)
        ensures
            r == *self,
    {
        DeviceInfo {
            firmware_left: clone_opt(&self.firmware_left),
            firmware_right: clone_opt(&self.firmware_right),
            firmware_case: clone_opt(&self.firmware_case),
            serial_left: clone_opt(&self.serial_left),
            serial_right: clone_opt(&self.serial_right),
            serial_case: clone_opt(&self.serial_case),
            color: clone_opt(&self.color),
        }
    }
}

impl Default for DeviceInfo {
    fn default() -> (d: DeviceInfo)
        ensures
            d.is_empty(),
    {
        DeviceInfo {
            firmware_left: None,
            firmware_right: None,
            firmware_case: None,
            serial_left: None,
            serial_right: None,
            serial_case: None,
            color: None,
        }
    }
}

/// Audio sink and card state as PipeWire/PulseAudio report it.
#[derive(Clone, Debug, PartialEq)]
pub struct AudioState {
    pub volume_percent: Option<u8>,
    pub muted: bool,
    pub profile: Option<Profile>,
    pub codec: Option<String>,
    pub available_codecs: Vec<String>,
    pub is_default_sink: bool,
    pub latency_offset_ms: i32,
}

impl AudioState {
    pub open spec fn is_empty(self) -> bool {
        &&& self.volume_percent is None
        &&& !self.muted
        &&& self.profile is None
        &&& self.codec is None
        &&& self.available_codecs@.len() == 0
        &&& !self.is_default_sink
        &&& self.latency_offset_ms == 0
    }
}

/// A copy of a vector of strings.
pub fn copy_strings(v: &Vec<String>) -> (r: Vec<String>)
    ensures
        r@ == v@,
{
    let mut r: Vec<String> = Vec::new();
    let mut i: usize = 0;
    while i < v.len()
        invariant
            i <= v.len(),
            r@ == v@.take(i as int),
        decreases v.len() - i,
    {
        r.push(v[i].clone());
        assert(v@.take(i + 1) == v@.take(i as int).push(v@[i as int]));
        i += 1;
    }
    assert(v@.take(i as int) == v@);
    r
}

impl AudioState {
    pub fn duplicate(&self) -> (r: AudioState)
        ensures
            r.volume_percent == self.volume_percent,
            r.muted == self.muted,
            r.profile == self.profile,
            r.codec == self.codec,
            r.available_codecs@ == self.available_codecs@,
            r.is_default_sink == self.is_default_sink,
            r.latency_offset_ms == self.latency_offset_ms,
    {
        AudioState {
            volume_percent: self.volume_percent,
            muted: self.muted,
            profile: self.profile,
            codec: clone_opt(&self.codec),
            available_codecs: copy_strings(&self.available_codecs),
            is_default_sink: self.is_default_sink,
            latency_offset_ms: self.latency_offset_ms,
        }
    }
}

impl Default for AudioState {
    fn default() -> (a: AudioState)
        ensures
            a.is_empty(),
    {
        AudioState {
            volume_percent: None,
            muted: false,
            profile: None,
            codec: None,
            available_codecs: Vec::new(),
            is_default_sink: false,
            latency_offset_ms: 0,
        }
    }
}

/// Bluetooth link facts.
#[derive(Clone, Copy, Debug, PartialEq, Eq, Structural)]
pub struct BtState {
    pub rssi_dbm: Option<i16>,
    pub paired: bool,
    pub trusted: bool,
    pub auto_connect: bool,
}

impl BtState {
    pub open spec fn empty() -> BtState {
        BtState { rssi_dbm: None, paired: false, trusted: false, auto_connect: false }
    }
}

impl Default for BtState {
    fn default() -> (b: BtState)
        ensures
            b == BtState::empty(),
    {
        BtState { rssi_dbm: None, paired: false, trusted: false, auto_connect: false }
    }
}

/// One paired AirPods as `list` shows it.
#[derive(Clone, Debug, PartialEq, Eq)]
pub struct PairedDevice {
    pub address: String,
    pub name: String,
    pub model: Option<String>,
    pub connected: bool,
    pub trusted: bool,
}

impl Default for PairedDevice {
    fn default() -> (d: PairedDevice)
        ensures
            d.address@.len() == 0,
            d.name@.len() == 0,
            d.model is None,
            !d.connected,
            !d.trusted,
    {
        PairedDevice {
            address: String::new(),
            name: String::new(),
            model: None,
            connected: false,
            trusted: false,
        }
    }
}

/// Settings held on the buds themselves.
#[derive(Clone, Debug, PartialEq, Eq)]
pub struct PodSettings {
    pub mode: Option<Mode>,
    pub conv_awareness: Option<ConvAwareness>,
    pub spatial_audio: Option<SpatialAudio>,
    pub ear_detection: Option<bool>,
    pub mic_selection: Option<MicSelection>,
    pub loud_sound_reduction: Option<bool>,
    pub press_action_left: Option<PressAction>,
    pub press_action_right: Option<PressAction>,
    pub tone_on_press: Option<bool>,
    pub custom_name: Option<String>,
    pub one_bud_anc: Option<bool>,
    pub chime_volume: Option<u8>,
    pub auto_anc_level: Option<u8>,
}

impl PodSettings {
    pub open spec fn is_empty(self) -> bool {
        &&& self.mode is None
        &&& self.conv_awareness is None
        &&& self.spatial_audio is None
        &&& self.ear_detection is None
        &&& self.mic_selection is None
        &&& self.loud_sound_reduction is None
        &&& self.press_action_left is None
        &&& self.press_action_right is None
        &&& self.tone_on_press is None
        &&& self.custom_name is None
        &&& self.one_bud_anc is None
        &&& self.chime_volume is None
        &&& self.auto_anc_level is None
    }
}

impl PodSettings {
    pub fn duplicate(&self) -> (r: PodSettings)
        ensures
            r == *self,
    {
        PodSettings {
            mode: self.mode,
            conv_awareness: self.conv_awareness,
            spatial_audio: self.spatial_audio,
            ear_detection: self.ear_detection,
            mic_selection: self.mic_selection,
            loud_sound_reduction: self.loud_sound_reduction,
            press_action_left: self.press_action_left,
            press_action_right: self.press_action_right,
            tone_on_press: self.tone_on_press,
            custom_name: clone_opt(&self.custom_name),
            one_bud_anc: self.one_bud_anc,
            chime_volume: self.chime_volume,
            auto_anc_level: self.auto_anc_level,
        }
    }
}

impl Default for PodSettings {
    fn default() -> (p: PodSettings)
        ensures
            p.is_empty(),
    {
        PodSettings {
            mode: None,
            conv_awareness: None,
            spatial_audio: None,
            ear_detection: None,
            mic_selection: None,
            loud_sound_reduction: None,
            press_action_left: None,
            press_action_right: None,
            tone_on_press: None,
            custom_name: None,
            one_bud_anc: None,
            chime_volume: None,
            auto_anc_level: None,
        }
    }
}

/// Everything the daemon knows about the AirPods.
#[derive(Clone, Debug, PartialEq)]
pub struct DeviceState {
    pub connected: bool,
    pub address: Option<String>,
    pub name: Option<String>,
    pub capabilities: Capabilities,
    pub info: DeviceInfo,
    pub battery: Battery,
    pub in_ear: InEar,
    pub case_lid_open: Option<bool>,
    pub press_counts: PressCounts,
    pub settings: PodSettings,
    pub audio: AudioState,
    pub bluetooth: BtState,
    pub updated_at: i64,
}

impl DeviceState {
    /// The state of a daemon that has seen nothing yet.
    pub open spec fn is_empty(self) -> bool {
        self.is_empty_at(0)
    }

    /// Nothing known, stamped at `t`.
    pub open spec fn is_empty_at(self, t: i64) -> bool {
        &&& !self.connected
        &&& self.address is None
        &&& self.name is None
        &&& self.capabilities == Capabilities::conservative_of(crate::caps::Model::Unknown)
        &&& self.info.is_empty()
        &&& self.battery == Battery::empty()
        &&& self.in_ear == (InEar { primary: EarStatus::Unknown, secondary: EarStatus::Unknown })
        &&& self.case_lid_open is None
        &&& self.press_counts == PressCounts::zero()
        &&& self.settings.is_empty()
        &&& self.audio.is_empty()
        &&& self.bluetooth == BtState::empty()
        &&& self.updated_at == t
    }
}

impl AudioState {
    /// The audio state as a value: every field, the codec list by its
    /// strings.
    pub open spec fn same_as(self, other: AudioState) -> bool {
        &&& self.volume_percent == other.volume_percent
        &&& self.muted == other.muted
        &&& self.profile == other.profile
        &&& self.codec == other.codec
        &&& self.available_codecs@ == other.available_codecs@
        &&& self.is_default_sink == other.is_default_sink
        &&& self.latency_offset_ms == other.latency_offset_ms
    }
}

impl DeviceState {
    /// `self` and `other` hold the same values.
    pub open spec fn same_as(self, other: DeviceState) -> bool {
        &&& self.connected == other.connected
        &&& self.address == other.address
        &&& self.name == other.name
        &&& self.capabilities == other.capabilities
        &&& self.info == other.info
        &&& self.battery == other.battery
        &&& self.in_ear == other.in_ear
        &&& self.case_lid_open == other.case_lid_open
        &&& self.press_counts == other.press_counts
        &&& self.settings == other.settings
        &&& self.audio.same_as(other.audio)
        &&& self.bluetooth == other.bluetooth
        &&& self.updated_at == other.updated_at
    }

    pub fn duplicate(&self) -> (r: DeviceState)
        ensures
            r.same_as(*self),
    {
        DeviceState {
            connected: self.connected,
            address: clone_opt(&self.address),
            name: clone_opt(&self.name),
            capabilities: self.capabilities,
            info: self.info.duplicate(),
            battery: self.battery,
            in_ear: self.in_ear,
            case_lid_open: self.case_lid_open,
            press_counts: self.press_counts,
            settings: self.settings.duplicate(),
            audio: self.audio.duplicate(),
            bluetooth: self.bluetooth,
            updated_at: self.updated_at,
        }
    }
}

impl Default for DeviceState {
    fn default() -> (d: DeviceState)
        ensures
            d.is_empty(),
    {
        DeviceState {
            connected: false,
            address: None,
            name: None,
            capabilities: Capabilities::default(),
            info: DeviceInfo::default(),
            battery: Battery::default(),
            in_ear: InEar::default(),
            case_lid_open: None,
            press_counts: PressCounts::default(),
            settings: PodSettings::default(),
            audio: AudioState::default(),
            bluetooth: BtState::default(),
            updated_at: 0,
        }
    }
}

/// Left or right bud.
#[derive(Clone, Copy, Debug, PartialEq, Eq, Structural)]
pub enum Side {
    Left,
    Right,
}

/// Kind of a stem press.
#[derive(Clone, Copy, Debug, PartialEq, Eq, Structural)]
pub enum PressKind {
    Single,
    Double,
    Triple,
    Long,
}

/// What the daemon broadcasts to watchers.
#[derive(Clone, Debug, PartialEq)]
pub enum Event {
    Connected { name: String, address: String },
    Disconnected,
    Battery(Battery),
    InEar(InEar),
    CaseLid { open: bool },
    Mode(Mode),
    ConvAwareness(ConvAwareness),
    Press { side: Side, kind: PressKind },
    SettingsChanged,
    /// Ask any running popup to show itself (e.g. `podctl popup`).
    ShowPopup,
}

/// A word of lowercase letters and dashes is its own key.
proof fn lemma_key_of_word(s: Seq<char>)
    requires
        forall|i: int| 0 <= i < s.len() ==> ('a' <= #[trigger] s[i] <= 'z' || s[i] == '-'),
    ensures
        key(s) == s,
{
    if s.len() > 0 {
        assert(!crate::text::is_ws(s[0]));
        assert(!crate::text::is_ws(s.last()));
    }
    assert(crate::text::trim_start(s) == s);
    assert(crate::text::trim_end(s) == s);
    assert(crate::text::lower(s) =~= s);
}

/// Every mode's name parses back to that mode.
pub proof fn lemma_mode_label_parses(m: Mode)
    ensures
        mode_named(key(m.label())) == Some(m),
{
    reveal_strlit("off");
    reveal_strlit("none");
    reveal_strlit("passive");
    reveal_strlit("anc");
    reveal_strlit("nc");
    reveal_strlit("noise");
    reveal_strlit("noise-cancellation");
    reveal_strlit("transparency");
    reveal_strlit("tr");
    reveal_strlit("trans");
    reveal_strlit("pass");
    reveal_strlit("adaptive");
    lemma_key_of_word(m.label());
    match m {
        Mode::Off => {},
        Mode::NoiseCancellation => {
            assert("anc"@[0] != "off"@[0]);
            assert("anc"@.len() != "none"@.len());
            assert("anc"@.len() != "passive"@.len());
        },
        Mode::Transparency => {
            assert("transparency"@.len() != "off"@.len());
            assert("transparency"@.len() != "none"@.len());
            assert("transparency"@.len() != "passive"@.len());
            assert("transparency"@.len() != "anc"@.len());
            assert("transparency"@.len() != "nc"@.len());
            assert("transparency"@.len() != "noise"@.len());
            assert("transparency"@.len() != "noise-cancellation"@.len());
        },
        Mode::Adaptive => {
            assert("adaptive"@.len() != "off"@.len());
            assert("adaptive"@.len() != "none"@.len());
            assert("adaptive"@[0] != "passive"@[0]);
            assert("adaptive"@.len() != "anc"@.len());
            assert("adaptive"@.len() != "nc"@.len());
            assert("adaptive"@.len() != "noise"@.len());
            assert("adaptive"@.len() != "noise-cancellation"@.len());
            assert("adaptive"@[0] != "transparency"@[0]);
            assert("adaptive"@.len() != "tr"@.len());
            assert("adaptive"@.len() != "trans"@.len());
            assert("adaptive"@.len() != "pass"@.len());
        },
    }
}

/// Every profile's name parses back to it.
pub proof fn lemma_profile_label_parses(x: Profile)
    ensures
        profile_named(key(x.label())) == Some(x),
{
    reveal_strlit("a2dp");
    reveal_strlit("call");
    reveal_strlit("disabled");
    reveal_strlit("headset");
    reveal_strlit("hfp");
    reveal_strlit("high");
    reveal_strlit("hsp");
    reveal_strlit("mic");
    reveal_strlit("music");
    reveal_strlit("none");
    reveal_strlit("off");
    reveal_strlit("stereo");
    lemma_key_of_word(x.label());
    match x {
        Profile::HighQuality => {
        },
        Profile::Headset => {
            assert("headset"@.len() != "high"@.len());
            assert("headset"@.len() != "a2dp"@.len());
            assert("headset"@.len() != "music"@.len());
            assert("headset"@.len() != "stereo"@.len());
        },
        Profile::Off => {
            assert("off"@.len() != "high"@.len());
            assert("off"@.len() != "a2dp"@.len());
            assert("off"@.len() != "music"@.len());
            assert("off"@.len() != "stereo"@.len());
            assert("off"@.len() != "headset"@.len());
            assert("off"@[0] != "hsp"@[0]);
            assert("off"@[0] != "hfp"@[0]);
            assert("off"@.len() != "call"@.len());
            assert("off"@[0] != "mic"@[0]);
        },
    }
}
/// Every spatial-audio mode's name parses back to it.
pub proof fn lemma_spatial_label_parses(x: SpatialAudio)
    ensures
        spatial_named(key(x.label())) == Some(x),
{
    reveal_strlit("fixed");
    reveal_strlit("head");
    reveal_strlit("head-tracked");
    reveal_strlit("ht");
    reveal_strlit("none");
    reveal_strlit("off");
    reveal_strlit("stereo");
    reveal_strlit("tracked");
    lemma_key_of_word(x.label());
    match x {
        SpatialAudio::Off => {
        },
        SpatialAudio::Fixed => {
            assert("fixed"@.len() != "off"@.len());
            assert("fixed"@.len() != "none"@.len());
        },
        SpatialAudio::HeadTracked => {
            assert("head-tracked"@.len() != "off"@.len());
            assert("head-tracked"@.len() != "none"@.len());
            assert("head-tracked"@.len() != "fixed"@.len());
            assert("head-tracked"@.len() != "stereo"@.len());
        },
    }
}
/// Every microphone choice's name parses back to it.
pub proof fn lemma_mic_label_parses(x: MicSelection)
    ensures
        mic_named(key(x.label())) == Some(x),
{
    reveal_strlit("auto");
    reveal_strlit("l");
    reveal_strlit("left");
    reveal_strlit("r");
    reveal_strlit("right");
    lemma_key_of_word(x.label());
    match x {
        MicSelection::Auto => {
        },
        MicSelection::AlwaysLeft => {
            assert("left"@[0] != "auto"@[0]);
        },
        MicSelection::AlwaysRight => {
            assert("right"@.len() != "auto"@.len());
            assert("right"@.len() != "left"@.len());
            assert("right"@.len() != "l"@.len());
        },
    }
}
/// Every press action's name parses back to it.
pub proof fn lemma_press_action_label_parses(x: PressAction)
    ensures
        press_action_named(key(x.label())) == Some(x),
{
    reveal_strlit("cycle");
    reveal_strlit("mode");
    reveal_strlit("mode-cycle");
    reveal_strlit("none");
    reveal_strlit("noop");
    reveal_strlit("off");
    reveal_strlit("siri");
    lemma_key_of_word(x.label());
    match x {
        PressAction::ModeCycle => {
        },
        PressAction::Siri => {
            assert("siri"@.len() != "mode-cycle"@.len());
            assert("siri"@.len() != "cycle"@.len());
            assert("siri"@[0] != "mode"@[0]);
        },
        PressAction::NoAction => {
            assert("none"@.len() != "mode-cycle"@.len());
            assert("none"@.len() != "cycle"@.len());
            assert("none"@[0] != "mode"@[0]);
            assert("none"@[0] != "siri"@[0]);
        },
    }
}
} // verus!
