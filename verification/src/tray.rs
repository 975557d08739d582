//! The tray icon's logic: its configuration file, the state it mirrors
//! from the daemon, the tooltip and status it shows, the low-battery
//! alarm, and the items of its menu. The D-Bus plumbing lives outside.

use vstd::prelude::*;

use crate::caps::{Capabilities, Model};
use crate::ipc::Request;
use crate::model::{Battery, ConvAwareness, DeviceState, Event, Mode};
use crate::text::{
    chars_of, decimal, decimal_chars, eq_chars, eq_str, find, lines, lines_of, opt_view, owned,
    parse_unsigned, parse_unsigned_chars, push_chars, push_str, slice, string_of, trim,
    trim_chars,
};

verus! {

// ---------------------------------------------------------------------
// Configuration
// ---------------------------------------------------------------------

/// What a left click on the icon does.
#[derive(Clone, Copy, Debug, PartialEq, Eq, Structural)]
pub enum LeftClick {
    Popup,
    ModeCycle,
    ToggleAncTr,
    Menu,
}

pub open spec fn left_click_named(s: Seq<char>) -> Option<LeftClick> {
    if s == "popup"@ {
        Some(LeftClick::Popup)
    } else if s == "mode-cycle"@ {
        Some(LeftClick::ModeCycle)
    } else if s == "toggle-anc-tr"@ || s == "toggle"@ {
        Some(LeftClick::ToggleAncTr)
    } else if s == "menu"@ {
        Some(LeftClick::Menu)
    } else {
        None
    }
}

impl LeftClick {
    pub open spec fn label(self) -> Seq<char> {
        match self {
            LeftClick::Popup => "popup"@,
            LeftClick::ModeCycle => "mode-cycle"@,
            LeftClick::ToggleAncTr => "toggle-anc-tr"@,
            LeftClick::Menu => "menu"@,
        }
    }

    pub fn as_str(self) -> (r: &'static str)
        ensures
            r@ == self.label(),
    {
        match self {
            LeftClick::Popup => "popup",
            LeftClick::ModeCycle => "mode-cycle",
            LeftClick::ToggleAncTr => "toggle-anc-tr",
            LeftClick::Menu => "menu",
        }
    }

    /// The action a config value names (exact spelling; `toggle` is an
    /// alias of `toggle-anc-tr`).
    pub fn parse(s: &str) -> (r: Option<LeftClick>)
        ensures
            r == left_click_named(s@),
    {
        let v = chars_of(s);
        if eq_str(&v, "popup") {
            Some(LeftClick::Popup)
        } else if eq_str(&v, "mode-cycle") {
            Some(LeftClick::ModeCycle)
        } else if eq_str(&v, "toggle-anc-tr") || eq_str(&v, "toggle") {
            Some(LeftClick::ToggleAncTr)
        } else if eq_str(&v, "menu") {
            Some(LeftClick::Menu)
        } else {
            None
        }
    }
}

/// Every action's name parses back to it.
pub proof fn lemma_left_click_label_parses(x: LeftClick)
    ensures
        left_click_named(x.label()) == Some(x),
{
    reveal_strlit("popup");
    reveal_strlit("mode-cycle");
    reveal_strlit("toggle-anc-tr");
    reveal_strlit("toggle");
    reveal_strlit("menu");
    match x {
        LeftClick::Popup => {},
        LeftClick::ModeCycle => {
            assert("mode-cycle"@.len() != "popup"@.len());
        },
        LeftClick::ToggleAncTr => {
            assert("toggle-anc-tr"@.len() != "popup"@.len());
            assert("toggle-anc-tr"@.len() != "mode-cycle"@.len());
        },
        LeftClick::Menu => {
            assert("menu"@.len() != "popup"@.len());
            assert("menu"@.len() != "mode-cycle"@.len());
            assert("menu"@.len() != "toggle-anc-tr"@.len());
            assert("menu"@.len() != "toggle"@.len());
        },
    }
}

/// The tray's settings.
#[derive(Clone, Debug)]
pub struct Config {
    pub left_click: LeftClick,
    pub low_battery_threshold: u8,
    pub notify_threshold: u8,
}

impl Default for Config {
    fn default() -> (c: Config)
        ensures
            c.left_click == LeftClick::Popup,
            c.low_battery_threshold == 20,
            c.notify_threshold == 10,
    {
        Config { left_click: LeftClick::Popup, low_battery_threshold: 20, notify_threshold: 10 }
    }
}

/// `$XDG_CONFIG_HOME/podctl/tray.toml`, with `$HOME/.config` (or
/// `/tmp/.config`) standing in for an unset `XDG_CONFIG_HOME`.
pub open spec fn config_path_of(home: Option<Seq<char>>, xdg: Option<Seq<char>>) -> Seq<char> {
    let base = match xdg {
        Some(x) => x,
        None => (match home {
            Some(h) => h,
            None => "/tmp"@,
        }) + "/.config"@,
    };
    if base.len() == 0 || base.last() == '/' {
        base + "podctl/tray.toml"@
    } else {
        base + "/podctl/tray.toml"@
    }
}

/// The config file's path for the given `HOME` and `XDG_CONFIG_HOME`.
pub fn config_path(home: Option<&str>, xdg: Option<&str>) -> (p: String)
    ensures
        p@ == config_path_of(
            match home {
                Some(h) => Some(h@),
                None => None,
            },
            match xdg {
                Some(x) => Some(x@),
                None => None,
            },
        ),
{
    let mut base = match xdg {
        Some(x) => owned(x),
        None => {
            let mut b = match home {
                Some(h) => owned(h),
                None => owned("/tmp"),
            };
            push_str(&mut b, "/.config");
            b
        },
    };
    let v = chars_of(base.as_str());
    if v.len() == 0 || v[v.len() - 1] == '/' {
        push_str(&mut base, "podctl/tray.toml");
    } else {
        push_str(&mut base, "/podctl/tray.toml");
    }
    base
}

// ---------------------------------------------------------------------
// The flat `key = value` file
// ---------------------------------------------------------------------

/// `s` up to its first `c` (all of it when there is none).
pub open spec fn before_char(s: Seq<char>, c: char) -> Seq<char>
    decreases s.len(),
{
    if s.len() == 0 {
        s
    } else if s[0] == c {
        seq![]
    } else {
        seq![s[0]] + before_char(s.drop_first(), c)
    }
}

/// `s` after its first `c`, if it has one.
pub open spec fn after_char(s: Seq<char>, c: char) -> Option<Seq<char>>
    decreases s.len(),
{
    if s.len() == 0 {
        None
    } else if s[0] == c {
        Some(s.drop_first())
    } else {
        after_char(s.drop_first(), c)
    }
}

/// `str::trim_start_matches(c)`.
pub open spec fn strip_lead(s: Seq<char>, c: char) -> Seq<char>
    decreases s.len(),
{
    if s.len() > 0 && s[0] == c {
        strip_lead(s.drop_first(), c)
    } else {
        s
    }
}

/// `str::trim_end_matches(c)`.
pub open spec fn strip_trail(s: Seq<char>, c: char) -> Seq<char>
    decreases s.len(),
{
    if s.len() > 0 && s.last() == c {
        strip_trail(s.drop_last(), c)
    } else {
        s
    }
}

/// `str::trim_matches(c)`.
pub open spec fn strip_both(s: Seq<char>, c: char) -> Seq<char> {
    strip_trail(strip_lead(s, c), c)
}

/// The entry a line holds: comments (`#` onwards) and blank lines hold
/// none; otherwise the trimmed key before the first `=` and the trimmed
/// value after it, stripped of surrounding quotes.
pub open spec fn flat_entry(raw: Seq<char>) -> Option<(Seq<char>, Seq<char>)> {
    let t = trim(before_char(raw, '#'));
    if t.len() == 0 {
        None
    } else {
        match after_char(t, '=') {
            None => None,
            Some(v) => Some(
                (trim(before_char(t, '=')), strip_both(strip_both(trim(v), '"'), '\'')),
            ),
        }
    }
}

/// The entry for `k` set to `v`: replaced in place, or appended.
pub open spec fn upsert(s: Seq<(Seq<char>, Seq<char>)>, k: Seq<char>, v: Seq<char>) -> Seq<
    (Seq<char>, Seq<char>),
> {
    if exists|i: int| 0 <= i < s.len() && (#[trigger] s[i]).0 == k {
        let i = choose|i: int| 0 <= i < s.len() && (#[trigger] s[i]).0 == k;
        s.update(i, (k, v))
    } else {
        s.push((k, v))
    }
}

/// The entries of a file, in order of first appearance; a later line for
/// the same key replaces the earlier value.
pub open spec fn flat_entries(ls: Seq<Seq<char>>) -> Seq<(Seq<char>, Seq<char>)>
    decreases ls.len(),
{
    if ls.len() == 0 {
        seq![]
    } else {
        let prev = flat_entries(ls.drop_last());
        match flat_entry(ls.last()) {
            Some((k, v)) => upsert(prev, k, v),
            None => prev,
        }
    }
}

/// No key occurs twice.
pub open spec fn keys_unique(s: Seq<(Seq<char>, Seq<char>)>) -> bool {
    forall|i: int, j: int| 0 <= i < j < s.len() ==> (#[trigger] s[i]).0 != (#[trigger] s[j]).0
}

/// The value stored for `k`.
pub open spec fn lookup(s: Seq<(Seq<char>, Seq<char>)>, k: Seq<char>) -> Option<Seq<char>> {
    if exists|i: int| 0 <= i < s.len() && (#[trigger] s[i]).0 == k {
        let i = choose|i: int| 0 <= i < s.len() && (#[trigger] s[i]).0 == k;
        Some(s[i].1)
    } else {
        None
    }
}

/// In the config's entries, a read gives back the last value written
/// for the key, a write leaves every other key as it was, and no key
/// ever occurs twice.
pub proof fn lemma_upsert_lookup(s: Seq<(Seq<char>, Seq<char>)>, k: Seq<char>, v: Seq<char>, other: Seq<char>)
    requires
        keys_unique(s),
    ensures
        keys_unique(upsert(s, k, v)),
        lookup(upsert(s, k, v), k) == Some(v),
        other != k ==> lookup(upsert(s, k, v), other) == lookup(s, other),
{
    let u = upsert(s, k, v);
    if exists|i: int| 0 <= i < s.len() && (#[trigger] s[i]).0 == k {
        let i = choose|i: int| 0 <= i < s.len() && (#[trigger] s[i]).0 == k;
        assert(u == s.update(i, (k, v)));
        assert(u[i].0 == k);
        assert forall|a: int, b: int| 0 <= a < b < u.len() implies (#[trigger] u[a]).0 != (
        #[trigger] u[b]).0 by {
            assert(s[a].0 != s[b].0);
        }
        let j = choose|j: int| 0 <= j < u.len() && (#[trigger] u[j]).0 == k;
        if j != i {
            assert(s[j].0 == k);
            assert(false);
        }
        if other != k {
            if exists|x: int| 0 <= x < s.len() && (#[trigger] s[x]).0 == other {
                let x = choose|x: int| 0 <= x < s.len() && (#[trigger] s[x]).0 == other;
                assert(u[x].0 == other);
                let y = choose|y: int| 0 <= y < u.len() && (#[trigger] u[y]).0 == other;
                if y != x {
                    assert(u[y].0 == s[y].0);
                    assert(false);
                }
            } else {
                assert forall|y: int| 0 <= y < u.len() implies (#[trigger] u[y]).0 != other by {
                    if y != i {
                        assert(u[y] == s[y]);
                    }
                }
            }
        }
    } else {
        assert(u == s.push((k, v)));
        assert(u[s.len() as int].0 == k);
        assert forall|a: int, b: int| 0 <= a < b < u.len() implies (#[trigger] u[a]).0 != (
        #[trigger] u[b]).0 by {
            if b < s.len() {
                assert(s[a].0 != s[b].0);
            } else {
                assert(s[a].0 != k);
            }
        }
        let j = choose|j: int| 0 <= j < u.len() && (#[trigger] u[j]).0 == k;
        if j != s.len() {
            assert(s[j].0 == k);
            assert(false);
        }
        if other != k {
            if exists|x: int| 0 <= x < s.len() && (#[trigger] s[x]).0 == other {
                let x = choose|x: int| 0 <= x < s.len() && (#[trigger] s[x]).0 == other;
                assert(u[x].0 == other);
                let y = choose|y: int| 0 <= y < u.len() && (#[trigger] u[y]).0 == other;
                if y != x {
                    if y < s.len() {
                        assert(u[y] == s[y]);
                    }
                    assert(false);
                }
            } else {
                assert forall|y: int| 0 <= y < u.len() implies (#[trigger] u[y]).0 != other by {
                    if y < s.len() {
                        assert(u[y] == s[y]);
                    }
                }
            }
        }
    }
}

/// The `key = value` pairs of the tray's config file; no key occurs
/// twice.
pub struct FlatConfig {
    keys: Vec<String>,
    values: Vec<String>,
}

impl FlatConfig {
    pub closed spec fn entries(&self) -> Seq<(Seq<char>, Seq<char>)> {
        Seq::new(self.keys@.len(), |i: int| (self.keys@[i]@, self.values@[i]@))
    }

    pub closed spec fn wf(&self) -> bool {
        &&& self.keys@.len() == self.values@.len()
        &&& keys_unique(self.entries())
    }

    fn empty() -> (c: FlatConfig)
        ensures
            c.wf(),
            c.entries() == Seq::<(Seq<char>, Seq<char>)>::empty(),
    {
        let c = FlatConfig { keys: Vec::new(), values: Vec::new() };
        assert(c.entries() =~= Seq::<(Seq<char>, Seq<char>)>::empty());
        c
    }

    fn position(&self, k: &Vec<char>) -> (r: Option<usize>)
        requires
            self.wf(),
        ensures
            match r {
                Some(i) => i < self.entries().len() && self.entries()[i as int].0 == k@,
                None => forall|i: int|
                    0 <= i < self.entries().len() ==> (#[trigger] self.entries()[i]).0 != k@,
            },
    {
        let mut i: usize = 0;
        while i < self.keys.len()
            invariant
                self.wf(),
                i <= self.keys@.len(),
                forall|j: int| 0 <= j < i ==> (#[trigger] self.entries()[j]).0 != k@,
            decreases self.keys.len() - i,
        {
            if eq_chars(&chars_of(self.keys[i].as_str()), k) {
                return Some(i);
            }
            i += 1;
        }
        None
    }

    fn insert(&mut self, k: String, v: String)
        requires
            old(self).wf(),
        ensures
            final(self).wf(),
            final(self).entries() == upsert(old(self).entries(), k@, v@),
    {
        let ghost e0 = self.entries();
        match self.position(&chars_of(k.as_str())) {
            Some(i) => {
                self.values.set(i, v);
                proof {
                    let j = choose|j: int| 0 <= j < e0.len() && (#[trigger] e0[j]).0 == k@;
                    if j != i {
                        assert(e0[j].0 == e0[i as int].0);
                        if j < i {
                            assert(false);
                        } else {
                            assert(false);
                        }
                    }
                    assert(self.entries() =~= e0.update(i as int, (k@, v@)));
                }
            },
            None => {
                self.keys.push(k);
                self.values.push(v);
                assert(self.entries() =~= e0.push((k@, v@)));
            },
        }
    }

    /// The value stored for `key`.
    pub fn get(&self, key: &str) -> (r: Option<&String>)
        requires
            self.wf(),
        ensures
            match r {
                Some(v) => lookup(self.entries(), key@) == Some(v@),
                None => lookup(self.entries(), key@) is None,
            },
    {
        match self.position(&chars_of(key)) {
            Some(i) => {
                proof {
                    let j = choose|j: int|
                        0 <= j < self.entries().len() && (#[trigger] self.entries()[j]).0 == key@;
                    if j != i {
                        assert(self.entries()[j].0 == self.entries()[i as int].0);
                        if j < i {
                            assert(false);
                        } else {
                            assert(false);
                        }
                    }
                }
                Some(&self.values[i])
            },
            None => None,
        }
    }

    /// How many keys the file sets.
    pub fn len(&self) -> (n: usize)
        requires
            self.wf(),
        ensures
            n == self.entries().len(),
    {
        self.keys.len()
    }
}

fn before_char_of(v: &Vec<char>, c: char) -> (r: Vec<char>)
    ensures
        r@ == before_char(v@, c),
{
    proof {
        crate::text::lemma_index_of(v@, c);
    }
    match find(v, c) {
        Some(i) => {
            proof {
                lemma_before_char_at(v@, c, i as int);
            }
            slice(v, 0, i)
        },
        None => {
            proof {
                lemma_before_char_none(v@, c);
            }
            slice(v, 0, v.len())
        },
    }
}

proof fn lemma_before_char_at(s: Seq<char>, c: char, i: int)
    requires
        0 <= i < s.len(),
        s[i] == c,
        forall|j: int| 0 <= j < i ==> s[j] != c,
    ensures
        before_char(s, c) == s.take(i),
        after_char(s, c) == Some(s.skip(i + 1)),
    decreases i,
{
    if i > 0 {
        lemma_before_char_at(s.drop_first(), c, i - 1);
        assert(s.take(i) =~= seq![s[0]] + s.drop_first().take(i - 1));
        assert(s.skip(i + 1) =~= s.drop_first().skip(i));
    } else {
        assert(s.take(0) =~= Seq::<char>::empty());
        assert(s.skip(1) =~= s.drop_first());
    }
}

proof fn lemma_before_char_none(s: Seq<char>, c: char)
    requires
        forall|j: int| 0 <= j < s.len() ==> s[j] != c,
    ensures
        before_char(s, c) == s,
        after_char(s, c) is None,
    decreases s.len(),
{
    if s.len() > 0 {
        lemma_before_char_none(s.drop_first(), c);
        assert(s =~= seq![s[0]] + s.drop_first());
    }
}

pub fn strip_both_of(v: &Vec<char>, c: char) -> (r: Vec<char>)
    ensures
        r@ == strip_both(v@, c),
{
    let mut i: usize = 0;
    assert(v@.skip(0) =~= v@);
    while i < v.len() && v[i] == c
        invariant
            i <= v.len(),
            strip_lead(v@, c) == strip_lead(v@.skip(i as int), c),
        decreases v.len() - i,
    {
        assert(v@.skip(i as int).drop_first() =~= v@.skip(i + 1));
        i += 1;
    }
    assert(strip_lead(v@.skip(i as int), c) == v@.skip(i as int));
    let mut j: usize = v.len();
    while j > i && v[j - 1] == c
        invariant
            i <= j <= v.len(),
            strip_lead(v@, c) == v@.skip(i as int),
            strip_both(v@, c) == strip_trail(v@.subrange(i as int, j as int), c),
        decreases j,
    {
        assert(v@.subrange(i as int, j as int).drop_last() =~= v@.subrange(i as int, j - 1));
        j -= 1;
    }
    assert(strip_trail(v@.subrange(i as int, j as int), c) == v@.subrange(i as int, j as int));
    proof {
        assert(v@.skip(i as int) =~= v@.subrange(i as int, v.len() as int));
    }
    slice(v, i, j)
}

fn parse_line(raw: &Vec<char>) -> (r: Option<(String, String)>)
    ensures
        match r {
            Some((k, v)) => flat_entry(raw@) == Some((k@, v@)),
            None => flat_entry(raw@) is None,
        },
{
    let t = trim_chars(&before_char_of(raw, '#'));
    if t.len() == 0 {
        return None;
    }
    proof {
        crate::text::lemma_index_of(t@, '=');
    }
    match find(&t, '=') {
        None => {
            proof {
                lemma_before_char_none(t@, '=');
            }
            None
        },
        Some(i) => {
            proof {
                lemma_before_char_at(t@, '=', i as int);
            }
            let k = trim_chars(&slice(&t, 0, i));
            let v = trim_chars(&slice(&t, i + 1, t.len()));
            let v = strip_both_of(&strip_both_of(&v, '"'), '\'');
            Some((string_of(&k), string_of(&v)))
        },
    }
}

/// Reads the flat `key = value` format of the tray's config file.
pub fn parse_flat(text: &str) -> (c: FlatConfig)
    ensures
        c.wf(),
        c.entries() == flat_entries(lines(text@)),
{
    let ls = lines_of(&chars_of(text));
    let mut out = FlatConfig::empty();
    let mut i: usize = 0;
    while i < ls.len()
        invariant
            i <= ls@.len(),
            out.wf(),
            crate::text::views(ls@) == lines(text@),
            out.entries() == flat_entries(crate::text::views(ls@).take(i as int)),
        decreases ls.len() - i,
    {
        let ghost pre = crate::text::views(ls@).take(i as int);
        assert(crate::text::views(ls@).take(i + 1).drop_last() == pre);
        assert(crate::text::views(ls@).take(i + 1).last() == ls@[i as int]@);
        match parse_line(&ls[i]) {
            Some((k, v)) => out.insert(k, v),
            None => {},
        }
        i += 1;
    }
    assert(crate::text::views(ls@).take(ls.len() as int) == crate::text::views(ls@));
    out
}

/// The settings a parsed file gives: each key that is present and valid
/// replaces the default; anything else keeps it.
pub fn config_from(kv: &FlatConfig) -> (c: Config)
    requires
        kv.wf(),
    ensures
        c.left_click == match lookup(kv.entries(), "left_click"@) {
            Some(v) => match left_click_named(v) {
                Some(l) => l,
                None => LeftClick::Popup,
            },
            None => LeftClick::Popup,
        },
        c.low_battery_threshold == match lookup(kv.entries(), "low_battery_threshold"@) {
            Some(v) => match parse_unsigned(v, 255) {
                Some(n) => n as u8,
                None => 20u8,
            },
            None => 20u8,
        },
        c.notify_threshold == match lookup(kv.entries(), "notify_threshold"@) {
            Some(v) => match parse_unsigned(v, 255) {
                Some(n) => n as u8,
                None => 10u8,
            },
            None => 10u8,
        },
{
    let mut cfg = Config::default();
    if let Some(v) = kv.get("left_click") {
        if let Some(l) = LeftClick::parse(v.as_str()) {
            cfg.left_click = l;
        }
    }
    if let Some(v) = kv.get("low_battery_threshold") {
        if let Some(n) = parse_unsigned_chars(&chars_of(v.as_str()), 255) {
            cfg.low_battery_threshold = n as u8;
        }
    }
    if let Some(v) = kv.get("notify_threshold") {
        if let Some(n) = parse_unsigned_chars(&chars_of(v.as_str()), 255) {
            cfg.notify_threshold = n as u8;
        }
    }
    cfg
}

// ---------------------------------------------------------------------
// What the tray shows
// ---------------------------------------------------------------------

/// What the tray mirrors of the daemon's state.
#[derive(Clone, Debug)]
pub struct TrayState {
    pub connected: bool,
    pub name: Option<String>,
    pub model: Option<String>,
    pub battery: Battery,
    pub mode: Option<Mode>,
    pub conv_awareness: Option<ConvAwareness>,
    pub capabilities: Capabilities,
    pub low_battery_threshold: u8,
}

impl TrayState {
    /// Nothing known yet.
    pub fn new(low_battery_threshold: u8) -> (s: TrayState)
        ensures
            !s.connected,
            s.name is None,
            s.model is None,
            s.battery == Battery::empty(),
            s.mode is None,
            s.conv_awareness is None,
            s.capabilities == Capabilities::conservative_of(Model::Unknown),
            s.low_battery_threshold == low_battery_threshold,
    {
        TrayState {
            connected: false,
            name: None,
            model: None,
            battery: Battery::default(),
            mode: None,
            conv_awareness: None,
            capabilities: Capabilities::default(),
            low_battery_threshold,
        }
    }

    /// The lower of the two bud levels that are known.
    pub open spec fn min_buds(self) -> Option<u8> {
        match (self.battery.left, self.battery.right) {
            (Some(l), Some(r)) => Some(
                if l <= r {
                    l
                } else {
                    r
                },
            ),
            (Some(l), None) => Some(l),
            (None, Some(r)) => Some(r),
            (None, None) => None,
        }
    }

    pub fn battery_min_buds(&self) -> (r: Option<u8>)
        ensures
            r == self.min_buds(),
    {
        match (self.battery.left, self.battery.right) {
            (Some(l), Some(r)) => Some(
                if l <= r {
                    l
                } else {
                    r
                },
            ),
            (Some(l), None) => Some(l),
            (None, Some(r)) => Some(r),
            (None, None) => None,
        }
    }

    /// The level the status is judged on (the buds only).
    pub fn battery_min(&self) -> (r: Option<u8>)
        ensures
            r == self.min_buds(),
    {
        self.battery_min_buds()
    }

    pub fn buds_charging(&self) -> (b: bool)
        ensures
            b == (self.battery.left_charging || self.battery.right_charging),
    {
        self.battery.left_charging || self.battery.right_charging
    }

    pub fn any_charging(&self) -> (b: bool)
        ensures
            b == (self.battery.left_charging || self.battery.right_charging
                || self.battery.case_charging),
    {
        self.battery.left_charging || self.battery.right_charging || self.battery.case_charging
    }

    /// Always a headphones icon: a battery glyph would read as the
    /// computer's own battery.
    pub fn icon_name(&self) -> (r: &'static str)
        ensures
            r@ == (if self.connected {
                "audio-headphones"@
            } else {
                "audio-headphones-symbolic"@
            }),
    {
        if self.connected {
            "audio-headphones"
        } else {
            "audio-headphones-symbolic"
        }
    }

    /// Whether the icon asks for attention: connected, a bud below the
    /// low-battery threshold, and nothing charging.
    pub open spec fn needs_attention(self) -> bool {
        &&& self.connected
        &&& self.min_buds() matches Some(p) && p < self.low_battery_threshold
        &&& !(self.battery.left_charging || self.battery.right_charging
            || self.battery.case_charging)
    }

    pub fn status(&self) -> (r: &'static str)
        ensures
            r@ == (if self.needs_attention() {
                "NeedsAttention"@
            } else {
                "Active"@
            }),
    {
        let low = match self.battery_min() {
            Some(p) => p < self.low_battery_threshold,
            None => false,
        };
        if self.connected && low && !self.any_charging() {
            "NeedsAttention"
        } else {
            "Active"
        }
    }

    /// The model label, else the device name, else "AirPods".
    pub open spec fn title_text(self) -> Seq<char> {
        match self.model {
            Some(m) => m@,
            None => match self.name {
                Some(n) => n@,
                None => "AirPods"@,
            },
        }
    }

    pub fn title(&self) -> (r: String)
        ensures
            r@ == self.title_text(),
    {
        match &self.model {
            Some(m) => m.clone(),
            None => match &self.name {
                Some(n) => n.clone(),
                None => owned("AirPods"),
            },
        }
    }

    /// The tooltip body: each known level, or "Connected" /
    /// "Not connected".
    pub open spec fn tooltip_body(self) -> Seq<char> {
        if !self.connected {
            "Not connected"@
        } else {
            let parts = (match self.battery.left {
                Some(l) => seq![part_text("L"@, l, self.battery.left_charging)],
                None => seq![],
            }) + (match self.battery.right {
                Some(r) => seq![part_text("R"@, r, self.battery.right_charging)],
                None => seq![],
            }) + (match self.battery.case {
                Some(c) => seq![part_text("Case"@, c, self.battery.case_charging)],
                None => seq![],
            });
            if parts.len() == 0 {
                "Connected"@
            } else {
                crate::text::joined(parts, " · "@)
            }
        }
    }

    /// Title and body of the tooltip.
    pub fn tooltip(&self) -> (r: (String, String))
        ensures
            r.0@ == self.title_text(),
            r.1@ == self.tooltip_body(),
    {
        let title = self.title();
        if !self.connected {
            return (title, owned("Not connected"));
        }
        let mut parts: Vec<String> = Vec::new();
        if let Some(l) = self.battery.left {
            parts.push(format_part("L", l, self.battery.left_charging));
        }
        let ghost p1 = crate::text::strs_view(parts@);
        if let Some(r) = self.battery.right {
            parts.push(format_part("R", r, self.battery.right_charging));
        }
        let ghost p2 = crate::text::strs_view(parts@);
        if let Some(c) = self.battery.case {
            parts.push(format_part("Case", c, self.battery.case_charging));
        }
        let ghost want = (match self.battery.left {
            Some(l) => seq![part_text("L"@, l, self.battery.left_charging)],
            None => seq![],
        }) + (match self.battery.right {
            Some(r) => seq![part_text("R"@, r, self.battery.right_charging)],
            None => seq![],
        }) + (match self.battery.case {
            Some(c) => seq![part_text("Case"@, c, self.battery.case_charging)],
            None => seq![],
        });
        assert(crate::text::strs_view(parts@) =~= want);
        let body = if parts.len() == 0 {
            owned("Connected")
        } else {
            crate::text::join_strings(&parts, " · ")
        };
        (title, body)
    }
}

/// One tooltip part: `L 82%`, with ` ⚡` while charging.
pub open spec fn part_text(label: Seq<char>, pct: u8, charging: bool) -> Seq<char> {
    label + " "@ + decimal(pct as nat) + "%"@ + if charging {
        " ⚡"@
    } else {
        seq![]
    }
}

pub fn format_part(label: &str, pct: u8, charging: bool) -> (r: String)
    ensures
        r@ == part_text(label@, pct, charging),
{
    let mut s = owned(label);
    push_str(&mut s, " ");
    push_chars(&mut s, &decimal_chars(pct as u64));
    push_str(&mut s, "%");
    if charging {
        push_str(&mut s, " ⚡");
    } else {
        assert(s@ =~= s@ + Seq::<char>::empty());
    }
    s
}

// ---------------------------------------------------------------------
// Low-battery alarm
// ---------------------------------------------------------------------

/// How far above the threshold a bud must climb before the alarm can
/// fire again.
pub const REARM_MARGIN: u8 = 5;

/// `threshold.saturating_add(REARM_MARGIN)`.
pub open spec fn rearm_level(threshold: u8) -> int {
    if threshold + 5 > 255 {
        255
    } else {
        threshold + 5
    }
}

/// Whether the alarm is armed after seeing `s`, and the level it fires
/// at, if it fires.
pub open spec fn alarm_step(armed: bool, threshold: u8, s: TrayState) -> (bool, Option<u8>) {
    if !s.connected {
        (armed, None)
    } else if s.battery.left_charging || s.battery.right_charging {
        (true, None)
    } else {
        match s.min_buds() {
            None => (armed, None),
            Some(p) => if p >= rearm_level(threshold) {
                (true, None)
            } else if p < threshold && armed {
                (false, Some(p))
            } else {
                (armed, None)
            },
        }
    }
}

/// Fires once when the lowest bud drops below the threshold, then stays
/// quiet until a bud charges or climbs `REARM_MARGIN` above it.
#[derive(Clone, Copy, Debug, PartialEq, Eq, Structural)]
pub struct Notifier {
    pub threshold: u8,
    pub armed: bool,
}

impl Notifier {
    pub fn new(threshold: u8) -> (a: Notifier)
        ensures
            a.threshold == threshold,
            a.armed,
    {
        Notifier { threshold, armed: true }
    }

    /// Looks at a new state; the level to notify about, if the alarm
    /// fires.
    pub fn observe(&mut self, state: &TrayState) -> (fire: Option<u8>)
        ensures
            final(self).threshold == old(self).threshold,
            (final(self).armed, fire) == alarm_step(old(self).armed, old(self).threshold, *state),
    {
        if !state.connected {
            return None;
        }
        if state.buds_charging() {
            self.armed = true;
            return None;
        }
        let pct = match state.battery_min_buds() {
            Some(p) => p,
            None => {
                return None;
            },
        };
        if pct >= self.threshold.saturating_add(REARM_MARGIN) {
            self.armed = true;
            return None;
        }
        if pct < self.threshold && self.armed {
            self.armed = false;
            return Some(pct);
        }
        None
    }
}

/// Once fired, the alarm stays quiet on every state that neither
/// charges a bud nor reaches the re-arm level.
pub proof fn lemma_alarm_fires_once(threshold: u8, s: TrayState)
    requires
        !(s.battery.left_charging || s.battery.right_charging),
        !(s.min_buds() matches Some(p) && p >= rearm_level(threshold)),
    ensures
        alarm_step(false, threshold, s) == (false, None::<u8>),
{
}

/// An armed alarm fires on a connected, non-charging state whose lowest
/// bud is under the threshold, and is disarmed by it.
pub proof fn lemma_alarm_fires_when_low(threshold: u8, s: TrayState, p: u8)
    requires
        s.connected,
        !(s.battery.left_charging || s.battery.right_charging),
        s.min_buds() == Some(p),
        p < threshold,
    ensures
        alarm_step(true, threshold, s) == (false, Some(p)),
{
}

/// `p` is the lowest level the buds report.
pub open spec fn lowest_bud(b: Battery, p: u8) -> bool {
    &&& (b.left == Some(p) || b.right == Some(p))
    &&& (b.left matches Some(l) ==> p <= l)
    &&& (b.right matches Some(r) ==> p <= r)
}

/// Some bud reports a level under `th`.
pub open spec fn bud_below(b: Battery, th: u8) -> bool {
    ||| (b.left matches Some(l) && l < th)
    ||| (b.right matches Some(r) && r < th)
}

/// The level the tray judges is the lowest known bud level: there is one
/// exactly when some bud reports a level, and it is the lowest of the
/// reported levels.
pub proof fn lemma_min_buds_is_lowest(s: TrayState)
    ensures
        s.min_buds() is None <==> (s.battery.left is None && s.battery.right is None),
        s.min_buds() matches Some(p) ==> lowest_bud(s.battery, p),
{
}

/// The icon asks for attention exactly when the buds are connected,
/// nothing charges, and some bud reports a level under the threshold; and
/// an armed alert then fires with the lowest reported level.
pub proof fn lemma_low_bud_alerts(s: TrayState)
    ensures
        s.needs_attention() <==> (s.connected && !(s.battery.left_charging
            || s.battery.right_charging || s.battery.case_charging) && bud_below(
            s.battery,
            s.low_battery_threshold,
        )),
        (s.connected && !(s.battery.left_charging || s.battery.right_charging) && bud_below(
            s.battery,
            s.low_battery_threshold,
        )) ==> (alarm_step(true, s.low_battery_threshold, s).1 matches Some(p) && lowest_bud(
            s.battery,
            p,
        )),
{
}

/// The notification's summary and body.
pub fn alarm_texts(title: &str, pct: u8) -> (r: (String, String))
    ensures
        r.0@ == title@ + " battery low"@,
        r.1@ == "Lowest bud at "@ + decimal(pct as nat) + "%"@,
{
    let mut summary = owned(title);
    push_str(&mut summary, " battery low");
    let mut body = owned("Lowest bud at ");
    push_chars(&mut body, &decimal_chars(pct as u64));
    push_str(&mut body, "%");
    (summary, body)
}

// ---------------------------------------------------------------------
// Following the daemon
// ---------------------------------------------------------------------

/// Takes a full status from the daemon. The model is sticky: a status
/// that resolves none keeps the one already known.
pub fn apply_status(s: &mut TrayState, ds: DeviceState)
    ensures
        final(s).connected == ds.connected,
        final(s).name == ds.name,
        final(s).battery == ds.battery,
        final(s).mode == ds.settings.mode,
        final(s).conv_awareness == ds.settings.conv_awareness,
        final(s).low_battery_threshold == old(s).low_battery_threshold,
        if ds.capabilities.model != Model::Unknown {
            &&& opt_view(final(s).model) == Some(ds.capabilities.model.title())
            &&& final(s).capabilities == ds.capabilities
        } else {
            &&& final(s).model == old(s).model
            &&& final(s).capabilities == old(s).capabilities
        },
{
    s.connected = ds.connected;
    s.name = ds.name;
    if ds.capabilities.model != Model::Unknown {
        s.model = Some(owned(ds.capabilities.model.label()));
        s.capabilities = ds.capabilities;
    }
    s.battery = ds.battery;
    s.mode = ds.settings.mode;
    s.conv_awareness = ds.settings.conv_awareness;
}

/// Applies one event from the watch stream.
pub fn apply_event(s: &mut TrayState, e: Event)
    ensures
        match e {
            Event::Connected { name, .. } => *final(s) == (TrayState {
                connected: true,
                name: Some(name),
                ..*old(s)
            }),
            Event::Disconnected => *final(s) == (TrayState {
                connected: false,
                battery: Battery::empty(),
                mode: None,
                conv_awareness: None,
                ..*old(s)
            }),
            Event::Battery(b) => *final(s) == (TrayState { battery: b, ..*old(s) }),
            Event::Mode(m) => *final(s) == (TrayState { mode: Some(m), ..*old(s) }),
            Event::ConvAwareness(c) => *final(s) == (TrayState {
                conv_awareness: Some(c),
                ..*old(s)
            }),
            _ => *final(s) == *old(s),
        },
{
    match e {
        Event::Connected { name, .. } => {
            s.connected = true;
            s.name = Some(name);
        },
        Event::Disconnected => {
            s.connected = false;
            s.battery = Battery::default();
            s.mode = None;
            s.conv_awareness = None;
        },
        Event::Battery(b) => s.battery = b,
        Event::Mode(m) => s.mode = Some(m),
        Event::ConvAwareness(c) => s.conv_awareness = Some(c),
        _ => {},
    }
}

/// Whether an event calls for a fresh status (capabilities only come
/// with one).
pub fn needs_status(e: &Event) -> (b: bool)
    ensures
        b == (*e is Connected || *e is SettingsChanged),
{
    match e {
        Event::Connected { .. } | Event::SettingsChanged => true,
        _ => false,
    }
}

/// The stream to the daemon is gone: show the device as disconnected.
pub fn mark_disconnected(s: &mut TrayState)
    ensures
        *final(s) == (TrayState { connected: false, battery: Battery::empty(), ..*old(s) }),
{
    s.connected = false;
    s.battery = Battery::default();
}

/// First reconnect delay, in milliseconds.
pub const BACKOFF_INITIAL_MS: u64 = 500;

/// Longest reconnect delay, in milliseconds.
pub const BACKOFF_MAX_MS: u64 = 30_000;

/// The delay after `ms`: doubled, at most `BACKOFF_MAX_MS`.
pub fn next_backoff(ms: u64) -> (r: u64)
    ensures
        r == (if 2 * ms > BACKOFF_MAX_MS {
            BACKOFF_MAX_MS as int
        } else {
            2 * ms
        }),
{
    if ms > BACKOFF_MAX_MS / 2 {
        BACKOFF_MAX_MS
    } else {
        2 * ms
    }
}

// ---------------------------------------------------------------------
// The menu
// ---------------------------------------------------------------------

pub const MENU_ROOT: i32 = 0;
pub const MENU_MODE: i32 = 1;
pub const MENU_CONV: i32 = 2;
pub const MENU_SEP: i32 = 3;
pub const MENU_DISCONNECT: i32 = 4;
pub const MENU_QUIT: i32 = 5;
pub const MENU_MODE_OFF: i32 = 10;
pub const MENU_MODE_ANC: i32 = 11;
pub const MENU_MODE_TRANS: i32 = 12;
pub const MENU_MODE_ADAPT: i32 = 13;

/// The text of a menu item.
#[derive(Clone, Copy, Debug, PartialEq, Eq, Structural)]
pub enum ItemLabel {
    Mode,
    Off,
    NoiseCancellation,
    Transparency,
    Adaptive,
    ConversationAwareness,
    Disconnect,
    QuitTray,
}

impl ItemLabel {
    pub open spec fn text(self) -> Seq<char> {
        match self {
            ItemLabel::Mode => "Mode"@,
            ItemLabel::Off => "Off"@,
            ItemLabel::NoiseCancellation => "Noise Cancellation"@,
            ItemLabel::Transparency => "Transparency"@,
            ItemLabel::Adaptive => "Adaptive"@,
            ItemLabel::ConversationAwareness => "Conversation Awareness"@,
            ItemLabel::Disconnect => "Disconnect"@,
            ItemLabel::QuitTray => "Quit tray"@,
        }
    }

    pub fn as_str(self) -> (r: &'static str)
        ensures
            r@ == self.text(),
    {
        match self {
            ItemLabel::Mode => "Mode",
            ItemLabel::Off => "Off",
            ItemLabel::NoiseCancellation => "Noise Cancellation",
            ItemLabel::Transparency => "Transparency",
            ItemLabel::Adaptive => "Adaptive",
            ItemLabel::ConversationAwareness => "Conversation Awareness",
            ItemLabel::Disconnect => "Disconnect",
            ItemLabel::QuitTray => "Quit tray",
        }
    }
}

/// How an item toggles.
#[derive(Clone, Copy, Debug, PartialEq, Eq, Structural)]
pub enum Toggle {
    Radio,
    Checkmark,
}

/// The dbusmenu properties of one item; `None` and `false` are left out.
#[derive(Clone, Copy, Debug, PartialEq, Eq, Structural)]
pub struct MenuItem {
    pub label: Option<ItemLabel>,
    pub toggle: Option<Toggle>,
    /// `toggle-state`: on (1) or off (0).
    pub toggle_on: Option<bool>,
    pub enabled: Option<bool>,
    /// `children-display = "submenu"`.
    pub submenu: bool,
    /// `type = "separator"`.
    pub separator: bool,
}

pub open spec fn blank_item() -> MenuItem {
    MenuItem {
        label: None,
        toggle: None,
        toggle_on: None,
        enabled: None,
        submenu: false,
        separator: false,
    }
}

pub open spec fn radio_item(l: ItemLabel, selected: bool, enabled: bool) -> MenuItem {
    MenuItem {
        label: Some(l),
        toggle: Some(Toggle::Radio),
        toggle_on: Some(selected),
        enabled: Some(enabled),
        ..blank_item()
    }
}

pub open spec fn leaf_item(l: ItemLabel, enabled: bool) -> MenuItem {
    MenuItem { label: Some(l), enabled: Some(enabled), ..blank_item() }
}

pub open spec fn mode_item() -> MenuItem {
    MenuItem { label: Some(ItemLabel::Mode), submenu: true, ..blank_item() }
}

pub open spec fn separator_item() -> MenuItem {
    MenuItem { separator: true, ..blank_item() }
}

/// "Off" is offered whenever the device has a noise-control mode, as the
/// daemon's gate for switching to it.
pub open spec fn off_allowed(c: Capabilities) -> bool {
    c.has_anc || c.has_transparency
}

pub fn off_enabled(c: &Capabilities) -> (b: bool)
    ensures
        b == off_allowed(*c),
{
    c.has_anc || c.has_transparency
}

/// The conversation-awareness checkmark: ticked when on, enabled when
/// the model has the feature.
pub open spec fn conv_item(s: TrayState) -> MenuItem {
    MenuItem {
        label: Some(ItemLabel::ConversationAwareness),
        toggle: Some(Toggle::Checkmark),
        toggle_on: Some(s.conv_awareness == Some(ConvAwareness::On)),
        enabled: Some(s.capabilities.has_conv_awareness),
        ..blank_item()
    }
}

/// The properties of item `id`, if there is such an item.
pub open spec fn item_of(id: i32, s: TrayState) -> Option<MenuItem> {
    let c = s.capabilities;
    if id == MENU_ROOT {
        Some(blank_item())
    } else if id == MENU_MODE {
        Some(mode_item())
    } else if id == MENU_MODE_OFF {
        Some(radio_item(ItemLabel::Off, s.mode == Some(Mode::Off), off_allowed(c)))
    } else if id == MENU_MODE_ANC {
        Some(
            radio_item(
                ItemLabel::NoiseCancellation,
                s.mode == Some(Mode::NoiseCancellation),
                c.has_anc,
            ),
        )
    } else if id == MENU_MODE_TRANS {
        Some(
            radio_item(ItemLabel::Transparency, s.mode == Some(Mode::Transparency), c.has_transparency),
        )
    } else if id == MENU_MODE_ADAPT {
        Some(radio_item(ItemLabel::Adaptive, s.mode == Some(Mode::Adaptive), c.has_adaptive))
    } else if id == MENU_CONV {
        Some(conv_item(s))
    } else if id == MENU_SEP {
        Some(separator_item())
    } else if id == MENU_DISCONNECT {
        Some(leaf_item(ItemLabel::Disconnect, s.connected))
    } else if id == MENU_QUIT {
        Some(leaf_item(ItemLabel::QuitTray, true))
    } else {
        None
    }
}

fn radio(l: ItemLabel, selected: bool, enabled: bool) -> (m: MenuItem)
    ensures
        m == radio_item(l, selected, enabled),
{
    MenuItem {
        label: Some(l),
        toggle: Some(Toggle::Radio),
        toggle_on: Some(selected),
        enabled: Some(enabled),
        submenu: false,
        separator: false,
    }
}

fn leaf(l: ItemLabel, enabled: bool) -> (m: MenuItem)
    ensures
        m == leaf_item(l, enabled),
{
    MenuItem {
        label: Some(l),
        toggle: None,
        toggle_on: None,
        enabled: Some(enabled),
        submenu: false,
        separator: false,
    }
}

fn conv_props(s: &TrayState) -> (m: MenuItem)
    ensures
        m == conv_item(*s),
{
    MenuItem {
        label: Some(ItemLabel::ConversationAwareness),
        toggle: Some(Toggle::Checkmark),
        toggle_on: Some(s.conv_awareness == Some(ConvAwareness::On)),
        enabled: Some(s.capabilities.has_conv_awareness),
        submenu: false,
        separator: false,
    }
}

/// The properties of item `id`.
pub fn item_props(id: i32, s: &TrayState) -> (r: Option<MenuItem>)
    ensures
        r == item_of(id, *s),
{
    let c = s.capabilities;
    if id == MENU_ROOT {
        Some(
            MenuItem {
                label: None,
                toggle: None,
                toggle_on: None,
                enabled: None,
                submenu: false,
                separator: false,
            },
        )
    } else if id == MENU_MODE {
        Some(
            MenuItem {
                label: Some(ItemLabel::Mode),
                toggle: None,
                toggle_on: None,
                enabled: None,
                submenu: true,
                separator: false,
            },
        )
    } else if id == MENU_MODE_OFF {
        Some(radio(ItemLabel::Off, s.mode == Some(Mode::Off), off_enabled(&c)))
    } else if id == MENU_MODE_ANC {
        Some(radio(ItemLabel::NoiseCancellation, s.mode == Some(Mode::NoiseCancellation), c.has_anc))
    } else if id == MENU_MODE_TRANS {
        Some(radio(ItemLabel::Transparency, s.mode == Some(Mode::Transparency), c.has_transparency))
    } else if id == MENU_MODE_ADAPT {
        Some(radio(ItemLabel::Adaptive, s.mode == Some(Mode::Adaptive), c.has_adaptive))
    } else if id == MENU_CONV {
        Some(conv_props(s))
    } else if id == MENU_SEP {
        Some(
            MenuItem {
                label: None,
                toggle: None,
                toggle_on: None,
                enabled: None,
                submenu: false,
                separator: true,
            },
        )
    } else if id == MENU_DISCONNECT {
        Some(leaf(ItemLabel::Disconnect, s.connected))
    } else if id == MENU_QUIT {
        Some(leaf(ItemLabel::QuitTray, true))
    } else {
        None
    }
}

/// The items whose properties change with the state, for the
/// `ItemsPropertiesUpdated` signal.
pub fn properties_snapshot(s: &TrayState) -> (r: Vec<(i32, MenuItem)>)
    ensures
        r@ == seq![
            (MENU_MODE_OFF, item_of(MENU_MODE_OFF, *s).unwrap()),
            (MENU_MODE_ANC, item_of(MENU_MODE_ANC, *s).unwrap()),
            (MENU_MODE_TRANS, item_of(MENU_MODE_TRANS, *s).unwrap()),
            (MENU_MODE_ADAPT, item_of(MENU_MODE_ADAPT, *s).unwrap()),
            (MENU_CONV, item_of(MENU_CONV, *s).unwrap()),
            (MENU_DISCONNECT, item_of(MENU_DISCONNECT, *s).unwrap()),
        ],
{
    let c = s.capabilities;
    let mut r: Vec<(i32, MenuItem)> = Vec::new();
    r.push((MENU_MODE_OFF, radio(ItemLabel::Off, s.mode == Some(Mode::Off), off_enabled(&c))));
    r.push(
        (
            MENU_MODE_ANC,
            radio(ItemLabel::NoiseCancellation, s.mode == Some(Mode::NoiseCancellation), c.has_anc),
        ),
    );
    r.push(
        (
            MENU_MODE_TRANS,
            radio(ItemLabel::Transparency, s.mode == Some(Mode::Transparency), c.has_transparency),
        ),
    );
    r.push(
        (MENU_MODE_ADAPT, radio(ItemLabel::Adaptive, s.mode == Some(Mode::Adaptive), c.has_adaptive)),
    );
    r.push((MENU_CONV, conv_props(s)));
    r.push((MENU_DISCONNECT, leaf(ItemLabel::Disconnect, s.connected)));
    assert(r@ =~= seq![
        (MENU_MODE_OFF, item_of(MENU_MODE_OFF, *s).unwrap()),
        (MENU_MODE_ANC, item_of(MENU_MODE_ANC, *s).unwrap()),
        (MENU_MODE_TRANS, item_of(MENU_MODE_TRANS, *s).unwrap()),
        (MENU_MODE_ADAPT, item_of(MENU_MODE_ADAPT, *s).unwrap()),
        (MENU_CONV, item_of(MENU_CONV, *s).unwrap()),
        (MENU_DISCONNECT, item_of(MENU_DISCONNECT, *s).unwrap()),
    ]);
    r
}

/// The children of a menu node: the root holds Mode, the
/// conversation-awareness toggle, a separator, Disconnect and Quit; Mode
/// holds the four mode radios; other items are leaves.
pub open spec fn children_spec(parent: i32) -> Seq<i32> {
    if parent == MENU_ROOT {
        seq![MENU_MODE, MENU_CONV, MENU_SEP, MENU_DISCONNECT, MENU_QUIT]
    } else if parent == MENU_MODE {
        seq![MENU_MODE_OFF, MENU_MODE_ANC, MENU_MODE_TRANS, MENU_MODE_ADAPT]
    } else {
        seq![]
    }
}

pub fn children_of(parent: i32) -> (r: Vec<i32>)
    ensures
        r@ == children_spec(parent),
{
    let mut r: Vec<i32> = Vec::new();
    if parent == MENU_ROOT {
        r.push(MENU_MODE);
        r.push(MENU_CONV);
        r.push(MENU_SEP);
        r.push(MENU_DISCONNECT);
        r.push(MENU_QUIT);
    } else if parent == MENU_MODE {
        r.push(MENU_MODE_OFF);
        r.push(MENU_MODE_ANC);
        r.push(MENU_MODE_TRANS);
        r.push(MENU_MODE_ADAPT);
    }
    assert(r@ =~= children_spec(parent));
    r
}

/// What a menu click does.
#[derive(Clone, Debug)]
pub enum MenuClick {
    /// Send this request to the daemon.
    Send(Request),
    /// Quit the tray.
    Quit,
    Nothing,
}

/// The action of an event on item `id`: only `clicked` events act; the
/// conversation toggle asks for the opposite of the known value (On
/// when unknown).
pub fn click(id: i32, event_id: &str, s: &TrayState) -> (r: MenuClick)
    ensures
        event_id@ != "clicked"@ ==> r is Nothing,
        event_id@ == "clicked"@ ==> (if id == MENU_MODE_OFF {
            r == MenuClick::Send(Request::SetMode { mode: Mode::Off })
        } else if id == MENU_MODE_ANC {
            r == MenuClick::Send(Request::SetMode { mode: Mode::NoiseCancellation })
        } else if id == MENU_MODE_TRANS {
            r == MenuClick::Send(Request::SetMode { mode: Mode::Transparency })
        } else if id == MENU_MODE_ADAPT {
            r == MenuClick::Send(Request::SetMode { mode: Mode::Adaptive })
        } else if id == MENU_CONV {
            r == MenuClick::Send(
                Request::SetConv {
                    conv: if s.conv_awareness == Some(ConvAwareness::On) {
                        ConvAwareness::Off
                    } else {
                        ConvAwareness::On
                    },
                },
            )
        } else if id == MENU_DISCONNECT {
            r == MenuClick::Send(Request::Disconnect)
        } else if id == MENU_QUIT {
            r is Quit
        } else {
            r is Nothing
        }),
{
    if !eq_str(&chars_of(event_id), "clicked") {
        return MenuClick::Nothing;
    }
    if id == MENU_MODE_OFF {
        MenuClick::Send(Request::SetMode { mode: Mode::Off })
    } else if id == MENU_MODE_ANC {
        MenuClick::Send(Request::SetMode { mode: Mode::NoiseCancellation })
    } else if id == MENU_MODE_TRANS {
        MenuClick::Send(Request::SetMode { mode: Mode::Transparency })
    } else if id == MENU_MODE_ADAPT {
        MenuClick::Send(Request::SetMode { mode: Mode::Adaptive })
    } else if id == MENU_CONV {
        let next = match s.conv_awareness {
            Some(ConvAwareness::On) => ConvAwareness::Off,
            _ => ConvAwareness::On,
        };
        MenuClick::Send(Request::SetConv { conv: next })
    } else if id == MENU_DISCONNECT {
        MenuClick::Send(Request::Disconnect)
    } else if id == MENU_QUIT {
        MenuClick::Quit
    } else {
        MenuClick::Nothing
    }
}

// ---------------------------------------------------------------------
// `podctl tray`
// ---------------------------------------------------------------------

/// What `podctl tray <verb>` does.
#[derive(Clone, Copy, Debug, PartialEq, Eq, Structural)]
pub enum TrayVerb {
    Start,
    Stop,
    Restart,
    Status,
    Help,
    /// Anything else: a usage error.
    Unknown,
}

/// The subcommand (`status` when none is given).
pub open spec fn tray_verb_of(a: Seq<Seq<char>>) -> TrayVerb {
    if a.len() == 0 {
        TrayVerb::Status
    } else {
        tray_word(a[0])
    }
}

pub open spec fn tray_word(v: Seq<char>) -> TrayVerb {
    if v == "start"@ {
        TrayVerb::Start
    } else if v == "stop"@ {
        TrayVerb::Stop
    } else if v == "restart"@ {
        TrayVerb::Restart
    } else if v == "status"@ {
        TrayVerb::Status
    } else if v == "help"@ || v == "-h"@ || v == "--help"@ {
        TrayVerb::Help
    } else {
        TrayVerb::Unknown
    }
}

pub fn tray_verb(args: &[String]) -> (r: TrayVerb)
    ensures
        r == tray_verb_of(crate::text::strs_view(args@)),
{
    if args.len() == 0 {
        return TrayVerb::Status;
    }
    assert(crate::text::strs_view(args@)[0] == args@[0]@);
    let v = chars_of(args[0].as_str());
    if eq_str(&v, "start") {
        TrayVerb::Start
    } else if eq_str(&v, "stop") {
        TrayVerb::Stop
    } else if eq_str(&v, "restart") {
        TrayVerb::Restart
    } else if eq_str(&v, "status") {
        TrayVerb::Status
    } else if eq_str(&v, "help") || eq_str(&v, "-h") || eq_str(&v, "--help") {
        TrayVerb::Help
    } else {
        TrayVerb::Unknown
    }
}

/// The exit code of a `systemctl --user` run: it could not be started
/// (an OS error), it failed (unavailable), or it succeeded.
pub fn systemctl_code(started: bool, success: bool) -> (c: i32)
    ensures
        c == (if !started {
            crate::exitcode::OSERR
        } else if success {
            crate::exitcode::OK
        } else {
            crate::exitcode::UNAVAILABLE
        }),
{
    if !started {
        crate::exitcode::OSERR
    } else if success {
        crate::exitcode::OK
    } else {
        crate::exitcode::UNAVAILABLE
    }
}

pub open spec fn or_text(o: Option<Seq<char>>, d: Seq<char>) -> Seq<char> {
    match o {
        Some(x) => x,
        None => d,
    }
}

/// The config line of `podctl tray status`, each key's value as the file
/// sets it (unchecked), or the default shown for it.
pub open spec fn summary_text(e: Seq<(Seq<char>, Seq<char>)>) -> Seq<char> {
    "left_click="@ + or_text(lookup(e, "left_click"@), "mode-cycle"@) + " low_battery_threshold="@
        + or_text(lookup(e, "low_battery_threshold"@), "20"@) + " notify_threshold="@ + or_text(
        lookup(e, "notify_threshold"@),
        "10"@,
    )
}

fn push_or(s: &mut String, v: Option<&String>, d: &str)
    ensures
        final(s)@ == old(s)@ + match v {
            Some(x) => x@,
            None => d@,
        },
{
    match v {
        Some(x) => push_str(s, x.as_str()),
        None => push_str(s, d),
    }
}

pub fn config_summary(kv: &FlatConfig) -> (r: String)
    requires
        kv.wf(),
    ensures
        r@ == summary_text(kv.entries()),
{
    let mut r = owned("left_click=");
    push_or(&mut r, kv.get("left_click"), "mode-cycle");
    push_str(&mut r, " low_battery_threshold=");
    push_or(&mut r, kv.get("low_battery_threshold"), "20");
    push_str(&mut r, " notify_threshold=");
    push_or(&mut r, kv.get("notify_threshold"), "10");
    r
}

/// Whether the `NameHasOwner` reply says a StatusNotifierWatcher is on
/// the bus (a failed call says no).
pub fn watcher_from(success: bool, stdout: &str) -> (b: bool)
    ensures
        b == (success && crate::text::contains(stdout@, "boolean true"@)),
{
    success && crate::text::contains_str(&chars_of(stdout), "boolean true")
}

/// A unit state word from `systemctl is-active` / `is-enabled` output:
/// the trimmed text, none when empty.
pub fn state_word(stdout: &str) -> (r: Option<String>)
    ensures
        match r {
            Some(w) => w@ == trim(stdout@) && w@.len() > 0,
            None => trim(stdout@).len() == 0,
        },
{
    let t = trim_chars(&chars_of(stdout));
    if t.len() == 0 {
        None
    } else {
        Some(string_of(&t))
    }
}

} // verus!
