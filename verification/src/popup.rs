//! The case-open bubble's logic: what it shows, when it pops up, when it
//! goes away, and which window backend it tries. Drawing and the window
//! systems live outside.

use vstd::prelude::*;

use crate::caps::Model;
use crate::model::{Battery, DeviceState, Event, Mode};
use crate::text::{chars_of, eq_str, lower, lower_chars, owned, push_str, strs_view};

verus! {

/// One battery on the card.
#[derive(Clone, Copy, Debug, PartialEq, Eq, Structural)]
pub struct Pod {
    pub level: Option<u8>,
    pub charging: bool,
}

impl Default for Pod {
    fn default() -> (p: Pod)
        ensures
            p == (Pod { level: None, charging: false }),
    {
        Pod { level: None, charging: false }
    }
}

/// What the card shows.
#[derive(Clone, Debug)]
pub struct Snapshot {
    pub model: String,
    pub connected: bool,
    pub mode: Option<Mode>,
    pub left: Pod,
    pub right: Pod,
    pub case: Pod,
}

/// Levels below this are low.
pub const LOW_PCT: u8 = 25;

pub open spec fn pod_low(p: Pod) -> bool {
    p.level matches Some(l) && l < LOW_PCT
}

pub open spec fn empty_pod() -> Pod {
    Pod { level: None, charging: false }
}

impl Snapshot {
    /// An earbud or the case is below the low-battery level.
    pub open spec fn is_low(&self) -> bool {
        pod_low(self.left) || pod_low(self.right) || pod_low(self.case)
    }

    pub fn low(&self) -> (b: bool)
        ensures
            b == self.is_low(),
    {
        let l = match self.left.level {
            Some(v) => v < LOW_PCT,
            None => false,
        };
        let r = match self.right.level {
            Some(v) => v < LOW_PCT,
            None => false,
        };
        let c = match self.case.level {
            Some(v) => v < LOW_PCT,
            None => false,
        };
        l || r || c
    }

    /// The card used for `--dump` and `--demo`.
    pub fn sample() -> (s: Snapshot)
        ensures
            s.model@ == "AirPods Pro 2"@,
            s.connected,
            s.mode == Some(Mode::NoiseCancellation),
            s.left == (Pod { level: Some(82u8), charging: false }),
            s.right == (Pod { level: Some(79u8), charging: false }),
            s.case == (Pod { level: Some(64u8), charging: true }),
    {
        Snapshot {
            model: owned("AirPods Pro 2"),
            connected: true,
            mode: Some(Mode::NoiseCancellation),
            left: Pod { level: Some(82), charging: false },
            right: Pod { level: Some(79), charging: false },
            case: Pod { level: Some(64), charging: true },
        }
    }

    /// What the bubble starts from before the daemon answers: the sample
    /// card, disconnected, with no mode and no levels.
    pub fn initial() -> (s: Snapshot)
        ensures
            s.model@ == "AirPods Pro 2"@,
            !s.connected,
            s.mode is None,
            s.left == empty_pod(),
            s.right == empty_pod(),
            s.case == empty_pod(),
    {
        let mut s = Snapshot::sample();
        s.connected = false;
        s.mode = None;
        s.left = Pod::default();
        s.right = Pod::default();
        s.case = Pod::default();
        s
    }
}

pub open spec fn mode_text(m: Mode) -> Seq<char> {
    match m {
        Mode::Off => "Off"@,
        Mode::NoiseCancellation => "Noise Cancellation"@,
        Mode::Transparency => "Transparency"@,
        Mode::Adaptive => "Adaptive"@,
    }
}

/// The mode as the card spells it.
pub fn mode_label(m: Mode) -> (r: &'static str)
    ensures
        r@ == mode_text(m),
{
    match m {
        Mode::Off => "Off",
        Mode::NoiseCancellation => "Noise Cancellation",
        Mode::Transparency => "Transparency",
        Mode::Adaptive => "Adaptive",
    }
}

/// The colour class of a battery ring.
#[derive(Clone, Copy, Debug, PartialEq, Eq, Structural)]
pub enum Tier {
    /// Charging.
    Accent,
    /// Level unknown.
    Muted,
    /// 50% and up.
    Good,
    /// 20% to 49%.
    Warn,
    /// Below 20%.
    Bad,
}

pub open spec fn tier_of(p: Pod) -> Tier {
    if p.charging {
        Tier::Accent
    } else {
        match p.level {
            None => Tier::Muted,
            Some(l) => if l >= 50 {
                Tier::Good
            } else if l >= 20 {
                Tier::Warn
            } else {
                Tier::Bad
            },
        }
    }
}

pub fn ramp(p: Pod) -> (t: Tier)
    ensures
        t == tier_of(p),
{
    if p.charging {
        return Tier::Accent;
    }
    match p.level {
        None => Tier::Muted,
        Some(l) => if l >= 50 {
            Tier::Good
        } else if l >= 20 {
            Tier::Warn
        } else {
            Tier::Bad
        },
    }
}

/// Whether a theme name asks for the light theme (any ASCII case);
/// every other name gives the dark one.
pub fn theme_is_light(name: &str) -> (b: bool)
    ensures
        b == (lower(name@) == "light"@),
{
    eq_str(&lower_chars(&chars_of(name)), "light")
}

// ---------------------------------------------------------------------
// Following the daemon
// ---------------------------------------------------------------------

pub open spec fn pods_of(s: Snapshot, b: Battery) -> bool {
    &&& s.left == (Pod { level: b.left, charging: b.left_charging })
    &&& s.right == (Pod { level: b.right, charging: b.right_charging })
    &&& s.case == (Pod { level: b.case, charging: b.case_charging })
}

pub fn apply_battery(snap: &mut Snapshot, b: &Battery)
    ensures
        pods_of(*final(snap), *b),
        final(snap).model == old(snap).model,
        final(snap).connected == old(snap).connected,
        final(snap).mode == old(snap).mode,
{
    snap.left = Pod { level: b.left, charging: b.left_charging };
    snap.right = Pod { level: b.right, charging: b.right_charging };
    snap.case = Pod { level: b.case, charging: b.case_charging };
}

/// Takes a full status. The model is sticky: a status that resolves no
/// model keeps the one shown.
pub fn apply_status(snap: &mut Snapshot, ds: &DeviceState)
    ensures
        final(snap).connected == ds.connected,
        final(snap).mode == ds.settings.mode,
        pods_of(*final(snap), ds.battery),
        if ds.capabilities.model != Model::Unknown {
            final(snap).model@ == ds.capabilities.model.title()
        } else {
            final(snap).model == old(snap).model
        },
{
    snap.connected = ds.connected;
    if ds.capabilities.model != Model::Unknown {
        snap.model = owned(ds.capabilities.model.label());
    }
    snap.mode = ds.settings.mode;
    apply_battery(snap, &ds.battery);
}

/// Every level that is known is at least three points above the low
/// level: the low-battery pop-up may fire again.
pub open spec fn recovered(b: Battery) -> bool {
    &&& (b.left matches Some(l) ==> l >= LOW_PCT + 3)
    &&& (b.right matches Some(r) ==> r >= LOW_PCT + 3)
    &&& (b.case matches Some(c) ==> c >= LOW_PCT + 3)
}

pub fn battery_recovered(b: &Battery) -> (r: bool)
    ensures
        r == recovered(*b),
{
    let l = match b.left {
        Some(v) => v >= LOW_PCT + 3,
        None => true,
    };
    let r = match b.right {
        Some(v) => v >= LOW_PCT + 3,
        None => true,
    };
    let c = match b.case {
        Some(v) => v >= LOW_PCT + 3,
        None => true,
    };
    l && r && c
}

/// What the bubble does after an event.
#[derive(Clone, Copy, Debug, PartialEq, Eq, Structural)]
pub enum PopupAction {
    Nothing,
    /// Open after the lid debounce, unless something cancels it.
    ScheduleOpen,
    /// Drop a pending open and forget the shown deadline; hide the
    /// bubble if a deadline was set.
    CancelOpen { hide: bool },
    /// Show the card now (a fresh trigger restarts the hold timer).
    Show,
    /// Redraw the card on screen with the new values.
    Refresh,
}

/// The effect of an event on the card, the low-battery latch, and the
/// bubble. `shown` is whether the bubble is on screen now; `deadline_set`
/// whether a shown deadline is recorded at all.
pub open spec fn event_outcome(s: Snapshot, low_armed: bool, e: Event, shown: bool, deadline_set: bool, s2: Snapshot, armed2: bool, a: PopupAction) -> bool {
    match e {
        Event::CaseLid { open } => s2 == s && armed2 == low_armed && if open {
            a == (if shown {
                PopupAction::Nothing
            } else {
                PopupAction::ScheduleOpen
            })
        } else {
            a == PopupAction::CancelOpen { hide: deadline_set }
        },
        Event::Battery(b) => {
            &&& pods_of(s2, b)
            &&& s2.model == s.model && s2.connected == s.connected && s2.mode == s.mode
            &&& if s2.is_low() && !low_armed {
                armed2 && a == PopupAction::Show
            } else {
                &&& armed2 == (if recovered(b) {
                    false
                } else {
                    low_armed
                })
                &&& a == (if shown {
                    PopupAction::Refresh
                } else {
                    PopupAction::Nothing
                })
            }
        },
        Event::Mode(m) => s2 == (Snapshot { mode: Some(m), ..s }) && armed2 == low_armed && a
            == PopupAction::Show,
        Event::Connected { .. } => s2 == (Snapshot { connected: true, ..s }) && armed2
            == low_armed && a == PopupAction::Show,
        Event::ShowPopup => s2 == s && armed2 == low_armed && a == PopupAction::Show,
        Event::Disconnected => s2 == (Snapshot {
            connected: false,
            mode: None,
            left: empty_pod(),
            right: empty_pod(),
            case: empty_pod(),
            ..s
        }) && armed2 == low_armed && a == PopupAction::Nothing,
        _ => s2 == s && armed2 == low_armed && a == PopupAction::Nothing,
    }
}

/// Decides what the bubble does with an event from the daemon.
pub fn handle_event(snap: &mut Snapshot, low_armed: &mut bool, e: Event, shown: bool, deadline_set: bool) -> (a: PopupAction)
    ensures
        event_outcome(
            *old(snap),
            *old(low_armed),
            e,
            shown,
            deadline_set,
            *final(snap),
            *final(low_armed),
            a,
        ),
{
    match e {
        Event::CaseLid { open } => {
            if open {
                if shown {
                    PopupAction::Nothing
                } else {
                    PopupAction::ScheduleOpen
                }
            } else {
                PopupAction::CancelOpen { hide: deadline_set }
            }
        },
        Event::Battery(b) => {
            apply_battery(snap, &b);
            if snap.low() && !*low_armed {
                *low_armed = true;
                PopupAction::Show
            } else {
                if battery_recovered(&b) {
                    *low_armed = false;
                }
                if shown {
                    PopupAction::Refresh
                } else {
                    PopupAction::Nothing
                }
            }
        },
        Event::Mode(m) => {
            snap.mode = Some(m);
            PopupAction::Show
        },
        Event::Connected { .. } => {
            snap.connected = true;
            PopupAction::Show
        },
        Event::ShowPopup => PopupAction::Show,
        Event::Disconnected => {
            snap.connected = false;
            snap.mode = None;
            snap.left = Pod::default();
            snap.right = Pod::default();
            snap.case = Pod::default();
            PopupAction::Nothing
        },
        _ => PopupAction::Nothing,
    }
}

/// The low-battery pop-up fires once per dip: while the latch is set, a
/// battery event never shows the bubble.
pub proof fn lemma_low_pops_once(s: Snapshot, b: Battery, shown: bool, deadline_set: bool, s2: Snapshot, armed2: bool, a: PopupAction)
    requires
        event_outcome(s, true, Event::Battery(b), shown, deadline_set, s2, armed2, a),
    ensures
        a != PopupAction::Show,
{
}

/// A dip below the low level with the latch clear shows the bubble and
/// sets the latch.
pub proof fn lemma_low_pops(s: Snapshot, b: Battery, shown: bool, deadline_set: bool, s2: Snapshot, armed2: bool, a: PopupAction)
    requires
        event_outcome(s, false, Event::Battery(b), shown, deadline_set, s2, armed2, a),
        (b.left matches Some(l) && l < LOW_PCT) || (b.right matches Some(r) && r < LOW_PCT) || (
        b.case matches Some(c) && c < LOW_PCT),
    ensures
        a == PopupAction::Show,
        armed2,
{
}

/// Levels back above the hysteresis band clear the latch.
pub proof fn lemma_recovery_rearms(s: Snapshot, low_armed: bool, b: Battery, shown: bool, deadline_set: bool, s2: Snapshot, armed2: bool, a: PopupAction)
    requires
        event_outcome(s, low_armed, Event::Battery(b), shown, deadline_set, s2, armed2, a),
        recovered(b),
    ensures
        !armed2,
        a != PopupAction::Show,
{
}

/// Whether the bubble is on screen at `now` (milliseconds on a
/// monotonic clock).
pub fn is_shown(shown_until: Option<u64>, now: u64) -> (b: bool)
    ensures
        b == (shown_until matches Some(t) && now < t),
{
    match shown_until {
        Some(t) => now < t,
        None => false,
    }
}

/// The timers after the bubble is shown at `now`: no open is pending,
/// and it stays up for `visible` milliseconds.
pub fn show_now(pending_open: &mut Option<u64>, shown_until: &mut Option<u64>, now: u64, visible: u64)
    ensures
        *final(pending_open) is None,
        *final(shown_until) == Some(
            if now + visible > u64::MAX {
                u64::MAX
            } else {
                (now + visible) as u64
            },
        ),
{
    *pending_open = None;
    *shown_until = Some(now.saturating_add(visible));
}

// ---------------------------------------------------------------------
// Backends
// ---------------------------------------------------------------------

/// A window backend for the bubble.
#[derive(Clone, Copy, Debug, PartialEq, Eq, Structural)]
pub enum BackendKind {
    /// A wlr-layer-shell surface.
    Wl,
    /// An override-redirect X11 window.
    X11,
    /// A desktop notification carrying the card as an image.
    Notify,
}

pub open spec fn backend_order_of(pick: Seq<char>) -> Result<Seq<BackendKind>, Seq<char>> {
    if pick == "wl"@ || pick == "wayland"@ || pick == "wl_layer"@ {
        Ok(seq![BackendKind::Wl, BackendKind::X11, BackendKind::Notify])
    } else if pick == "x11"@ || pick == "x11_or"@ {
        Ok(seq![BackendKind::X11, BackendKind::Notify])
    } else if pick == "notify"@ {
        Ok(seq![BackendKind::Notify])
    } else {
        Err("unknown backend '"@ + pick + "' (use wl|x11|notify)"@)
    }
}

/// The backends to try for a pick, best first; each falls back to the
/// ones after it.
pub fn backend_order(pick: &str) -> (r: Result<Vec<BackendKind>, String>)
    ensures
        match r {
            Ok(v) => backend_order_of(pick@) == Ok::<Seq<BackendKind>, Seq<char>>(v@),
            Err(e) => backend_order_of(pick@) == Err::<Seq<BackendKind>, Seq<char>>(e@),
        },
{
    let p = chars_of(pick);
    let mut v: Vec<BackendKind> = Vec::new();
    if eq_str(&p, "wl") || eq_str(&p, "wayland") || eq_str(&p, "wl_layer") {
        v.push(BackendKind::Wl);
        v.push(BackendKind::X11);
        v.push(BackendKind::Notify);
        assert(v@ =~= seq![BackendKind::Wl, BackendKind::X11, BackendKind::Notify]);
        Ok(v)
    } else if eq_str(&p, "x11") || eq_str(&p, "x11_or") {
        v.push(BackendKind::X11);
        v.push(BackendKind::Notify);
        assert(v@ =~= seq![BackendKind::X11, BackendKind::Notify]);
        Ok(v)
    } else if eq_str(&p, "notify") {
        v.push(BackendKind::Notify);
        assert(v@ =~= seq![BackendKind::Notify]);
        Ok(v)
    } else {
        let mut m = owned("unknown backend '");
        push_str(&mut m, pick);
        push_str(&mut m, "' (use wl|x11|notify)");
        Err(m)
    }
}

/// The backend `auto` picks: the layer shell when a Wayland display
/// offers it, else X11 when a display is set, else notifications.
pub fn detect(wayland: bool, x11: bool, layer_shell: bool) -> (r: &'static str)
    ensures
        r@ == (if wayland && layer_shell {
            "wl"@
        } else if x11 {
            "x11"@
        } else {
            "notify"@
        }),
{
    if wayland && layer_shell {
        "wl"
    } else if x11 {
        "x11"
    } else {
        "notify"
    }
}

pub const FNV_OFFSET: u64 = 0xcbf2_9ce4_8422_2325;

pub const FNV_PRIME: u64 = 0x0000_0100_0000_01b3;

/// A frame a backend uploads: premultiplied BGRA at the size the
/// backend was opened with, and the current gap to the screen's bottom
/// edge in pixels (the animation drives it).
pub struct Frame<'a> {
    pub bgra: &'a [u8],
    pub margin_bottom: i32,
}

/// `<dir>/podctl-popup.png`, `dir` being `$XDG_RUNTIME_DIR` or `/tmp`.
pub open spec fn image_path_of(dir: Option<Seq<char>>) -> Seq<char> {
    let base = match dir {
        Some(d) => d,
        None => "/tmp"@,
    };
    if base.len() == 0 || base.last() == '/' {
        base + "podctl-popup.png"@
    } else {
        base + "/podctl-popup.png"@
    }
}

/// The notification backend's memory: the card size, the image file it
/// hands to the notification daemon, and the notification on screen
/// (`id` 0: none) with the fingerprint of its picture.
#[derive(Clone, Debug)]
pub struct Notify {
    pub w: u32,
    pub h: u32,
    pub img: String,
    pub id: u32,
    pub fp: u64,
}

impl Notify {
    /// No notification yet; the image lives in `$XDG_RUNTIME_DIR` (or
    /// `/tmp`).
    pub fn new(runtime_dir: Option<&str>) -> (n: Notify)
        ensures
            n.w == 0 && n.h == 0 && n.id == 0 && n.fp == 0,
            n.img@ == image_path_of(
                match runtime_dir {
                    Some(d) => Some(d@),
                    None => None,
                },
            ),
    {
        let dir = match runtime_dir {
            Some(d) => d,
            None => "/tmp",
        };
        let mut img = owned(dir);
        let v = chars_of(dir);
        if v.len() == 0 || v[v.len() - 1] == '/' {
            push_str(&mut img, "podctl-popup.png");
        } else {
            push_str(&mut img, "/podctl-popup.png");
        }
        Notify { w: 0, h: 0, img, id: 0, fp: 0 }
    }

    pub fn open(&mut self, w: u32, h: u32)
        ensures
            *final(self) == (Notify { w, h, ..*old(self) }),
    {
        self.w = w;
        self.h = h;
    }

    /// Whether a frame with fingerprint `fp` can be skipped: the
    /// notification on screen already shows it.
    pub fn unchanged(&self, fp: u64) -> (b: bool)
        ensures
            b == (self.id != 0 && fp == self.fp),
    {
        unchanged_frame(self.id, self.fp, fp)
    }

    /// Records the notification that now shows the frame `fp`.
    pub fn shown(&mut self, id: u32, fp: u64)
        ensures
            *final(self) == (Notify { id, fp, ..*old(self) }),
    {
        self.id = id;
        self.fp = fp;
    }

    /// Forgets the notification; the id to close, if one was up.
    pub fn close(&mut self) -> (r: Option<u32>)
        ensures
            final(self).id == 0,
            *final(self) == (Notify { id: 0, ..*old(self) }),
            r == (if old(self).id != 0 {
                Some(old(self).id)
            } else {
                None::<u32>
            }),
    {
        if self.id != 0 {
            let id = self.id;
            self.id = 0;
            Some(id)
        } else {
            None
        }
    }
}

/// FNV-1a over `b`.
pub open spec fn fnv1a(b: Seq<u8>) -> u64
    decreases b.len(),
{
    if b.len() == 0 {
        FNV_OFFSET
    } else {
        vstd::wrapping::u64_specs::wrapping_mul(fnv1a(b.drop_last()) ^ (b.last() as u64), FNV_PRIME)
    }
}

/// The fingerprint the notification backend uses to skip re-sending an
/// unchanged frame.
pub fn fingerprint(b: &[u8]) -> (h: u64)
    ensures
        h == fnv1a(b@),
{
    let mut h: u64 = FNV_OFFSET;
    let mut i: usize = 0;
    while i < b.len()
        invariant
            i <= b@.len(),
            h == fnv1a(b@.take(i as int)),
        decreases b.len() - i,
    {
        assert(b@.take(i + 1).drop_last() == b@.take(i as int));
        assert(b@.take(i + 1).last() == b@[i as int]);
        h = (h ^ (b[i] as u64)).wrapping_mul(FNV_PRIME);
        i += 1;
    }
    assert(b@.take(b.len() as int) == b@);
    h
}

/// Whether a frame can be skipped: a notification is up and shows the
/// same picture.
pub fn unchanged_frame(id: u32, shown_fp: u64, fp: u64) -> (b: bool)
    ensures
        b == (id != 0 && fp == shown_fp),
{
    id != 0 && fp == shown_fp
}

/// The value after `name` on a command line (`--theme dark`), looking at
/// the first `name`.
pub open spec fn flag_of(args: Seq<Seq<char>>, name: Seq<char>) -> Option<Seq<char>> {
    if exists|i: int| 0 <= i < args.len() && args[i] == name {
        let i = choose|i: int|
            0 <= i < args.len() && args[i] == name && forall|j: int| 0 <= j < i ==> args[j] != name;
        if i + 1 < args.len() {
            Some(args[i + 1])
        } else {
            None
        }
    } else {
        None
    }
}

pub fn flag<'a>(args: &'a [String], name: &str) -> (r: Option<&'a str>)
    ensures
        match r {
            Some(v) => flag_of(strs_view(args@), name@) == Some(v@),
            None => flag_of(strs_view(args@), name@) is None,
        },
{
    let ghost a = strs_view(args@);
    let n = chars_of(name);
    let mut i: usize = 0;
    while i < args.len()
        invariant
            i <= args@.len(),
            a == strs_view(args@),
            n@ == name@,
            forall|j: int| 0 <= j < i ==> a[j] != name@,
        decreases args.len() - i,
    {
        if eq_str(&n, args[i].as_str()) {
            proof {
                assert(a[i as int] == name@);
                let w = choose|w: int|
                    0 <= w < a.len() && a[w] == name@ && forall|j: int| 0 <= j < w ==> a[j] != name@;
                if w < i {
                    assert(a[w] != name@);
                } else if w > i {
                    assert(a[i as int] != name@);
                }
            }
            if i + 1 < args.len() {
                return Some(args[i + 1].as_str());
            } else {
                return None;
            }
        }
        i += 1;
    }
    None
}

} // verus!
