//! The BlueZ side: what `bluetoothctl` reports about paired devices, which
//! of them are AirPods, and the `bluetoothctl` commands that act on them.
//!
//! Running `bluetoothctl` is the caller's business; these functions read
//! its output and say which arguments to run it with.

use vstd::prelude::*;

use crate::caps::{model_of_code, Capabilities, Model};
use crate::model::{BtState, PairedDevice};
use crate::text::{
    chars_of, clone_opt, has_char, eq_str, find, index_of, lex_less, lex_lt, lines, lines_of, opt_view, owned,
    parse_hex, parse_hex_chars, parse_signed, parse_signed_chars, push_chars, push_str,
    replace_char, replaced, slice, split, split_chars, starts_with, starts_with_str, string_of,
    strip_prefix, strs_view, trim, trim_chars, trim_start, trim_start_chars, utf8_width,
    utf8_width_of, views,
};

verus! {

pub type Addr = String;

/// One device as `bluetoothctl info` describes it.
#[derive(Clone, Debug)]
pub struct DeviceSummary {
    pub address: Addr,
    pub name: String,
    pub connected: bool,
    pub trusted: bool,
    pub paired: bool,
    pub modalias: Option<String>,
    pub icon: Option<String>,
}

pub struct DeviceView {
    pub address: Seq<char>,
    pub name: Seq<char>,
    pub connected: bool,
    pub trusted: bool,
    pub paired: bool,
    pub modalias: Option<Seq<char>>,
    pub icon: Option<Seq<char>>,
}

impl View for DeviceSummary {
    type V = DeviceView;

    open spec fn view(&self) -> DeviceView {
        DeviceView {
            address: self.address@,
            name: self.name@,
            connected: self.connected,
            trusted: self.trusted,
            paired: self.paired,
            modalias: opt_view(self.modalias),
            icon: opt_view(self.icon),
        }
    }
}

/// How many leading characters of `t` make up its first `n` bytes
/// (all of `t` when it is shorter); -1 when byte `n` falls inside a
/// character, where slicing there would panic.
pub open spec fn byte_cut(t: Seq<char>, n: nat) -> int
    decreases t.len(),
{
    if n == 0 || t.len() == 0 {
        0
    } else if utf8_width(t[0]) > n {
        -1
    } else {
        let r = byte_cut(t.drop_first(), (n - utf8_width(t[0])) as nat);
        if r < 0 {
            -1
        } else {
            r + 1
        }
    }
}

/// The product code field of a modalias: up to four bytes after the
/// first `p`.
pub open spec fn code_field(m: Seq<char>) -> Option<Seq<char>> {
    let p = index_of(m, 'p');
    if p < 0 {
        None
    } else {
        let t = m.skip(p + 1);
        Some(t.take(byte_cut(t, 4)))
    }
}

/// Whether the product code field can be cut out of the modalias (it
/// can unless a multi-byte character straddles its fourth byte).
pub open spec fn modalias_cut_ok(m: Option<Seq<char>>) -> bool {
    match m {
        Some(s) => index_of(s, 'p') < 0 || byte_cut(s.skip(index_of(s, 'p') + 1), 4) >= 0,
        None => true,
    }
}

/// The model a modalias names.
pub open spec fn model_of_modalias(m: Option<Seq<char>>) -> Model {
    match m {
        None => Model::Unknown,
        Some(s) => match code_field(s) {
            None => Model::Unknown,
            Some(f) => match parse_hex(f, 0xffff) {
                Some(code) => model_of_code(code as u16),
                None => Model::Unknown,
            },
        },
    }
}

pub open spec fn is_apple_spec(d: DeviceView) -> bool {
    match d.modalias {
        Some(m) => starts_with(m, "bluetooth:v004C"@) || starts_with(m, "bluetooth:v004c"@),
        None => false,
    }
}

/// Apple vendor, and either the headphones icon or a known AirPods
/// product code.
pub open spec fn is_airpods_spec(d: DeviceView) -> bool {
    is_apple_spec(d) && (d.icon == Some("audio-headphones"@) || model_of_modalias(d.modalias)
        != Model::Unknown)
}

/// Whether `is_airpods` can decide on `d`: it reads the product code
/// only for an Apple device without the headphones icon.
pub open spec fn airpods_decidable(d: DeviceView) -> bool {
    is_apple_spec(d) && d.icon != Some("audio-headphones"@) ==> modalias_cut_ok(d.modalias)
}

fn byte_cut_of(t: &Vec<char>, n: usize) -> (r: Option<usize>)
    requires
        n <= 4,
    ensures
        match r {
            Some(k) => byte_cut(t@, n as nat) == k && k <= t@.len(),
            None => byte_cut(t@, n as nat) < 0,
        },
{
    let mut i: usize = 0;
    let mut left = n;
    let ghost t0 = t@;
    assert(t@.skip(0) == t@);
    while i < t.len() && left > 0
        invariant
            i <= t.len(),
            left <= n <= 4,
            t0 == t@,
            byte_cut(t@, n as nat) == if byte_cut(t@.skip(i as int), left as nat) < 0 {
                -1
            } else {
                byte_cut(t@.skip(i as int), left as nat) + i
            },
        decreases t.len() - i,
    {
        let w = utf8_width_of(t[i]);
        assert(t@.skip(i as int)[0] == t@[i as int]);
        assert(t@.skip(i as int).drop_first() == t@.skip(i + 1));
        if w > left {
            return None;
        }
        left = left - w;
        i += 1;
    }
    Some(i)
}

impl DeviceSummary {
    /// A copy of `self`.
    pub fn duplicate(&self) -> (r: DeviceSummary)
        ensures
            r == *self,
    {
        DeviceSummary {
            address: self.address.clone(),
            name: self.name.clone(),
            connected: self.connected,
            trusted: self.trusted,
            paired: self.paired,
            modalias: clone_opt(&self.modalias),
            icon: clone_opt(&self.icon),
        }
    }

    /// Whether the product code can be read from the modalias (it cannot
    /// when a multi-byte character straddles its fourth byte).
    pub fn modalias_readable(&self) -> (b: bool)
        ensures
            b == modalias_cut_ok(self@.modalias),
    {
        let m = match &self.modalias {
            Some(m) => chars_of(m.as_str()),
            None => {
                return true;
            },
        };
        proof {
            crate::text::lemma_index_of(m@, 'p');
        }
        match find(&m, 'p') {
            None => true,
            Some(p) => {
                let tail = slice(&m, p + 1, m.len());
                assert(tail@ == m@.skip(p + 1));
                byte_cut_of(&tail, 4).is_some()
            },
        }
    }

    /// Whether `is_airpods` can decide on this device.
    pub fn is_airpods_decidable(&self) -> (b: bool)
        ensures
            b == airpods_decidable(self@),
    {
        let icon_ok = match &self.icon {
            Some(i) => eq_str(&chars_of(i.as_str()), "audio-headphones"),
            None => false,
        };
        !self.is_apple() || icon_ok || self.modalias_readable()
    }

    pub fn is_apple(&self) -> (b: bool)
        ensures
            b == is_apple_spec(self@),
    {
        match &self.modalias {
            Some(m) => {
                let v = chars_of(m.as_str());
                starts_with_str(&v, "bluetooth:v004C") || starts_with_str(&v, "bluetooth:v004c")
            },
            None => false,
        }
    }

    /// Apple vendor, and either the headphones icon (which covers a yet
    /// unknown product code) or a product code known as AirPods.
    pub fn is_airpods(&self) -> (b: bool)
        requires
            airpods_decidable(self@),
        ensures
            b == is_airpods_spec(self@),
    {
        let icon_ok = match &self.icon {
            Some(i) => eq_str(&chars_of(i.as_str()), "audio-headphones"),
            None => false,
        };
        if !self.is_apple() {
            return false;
        }
        if icon_ok {
            return true;
        }
        self.model() != Model::Unknown
    }

    pub fn model(&self) -> (m: Model)
        requires
            modalias_cut_ok(self@.modalias),
        ensures
            m == model_of_modalias(self@.modalias),
    {
        let m = match &self.modalias {
            Some(m) => chars_of(m.as_str()),
            None => {
                return Model::Unknown;
            },
        };
        let p = match find(&m, 'p') {
            Some(p) => p,
            None => {
                return Model::Unknown;
            },
        };
        let tail = slice(&m, p + 1, m.len());
        assert(tail@ == m@.skip(p + 1));
        let k = match byte_cut_of(&tail, 4) {
            Some(k) => k,
            None => {
                return Model::Unknown;
            },
        };
        let code = slice(&tail, 0, k);
        assert(code@ == tail@.take(k as int));
        match parse_hex_chars(&code, 0xffff) {
            Some(c) => Model::from_code(c as u16),
            None => Model::Unknown,
        }
    }

    pub fn capabilities(&self) -> (c: Capabilities)
        requires
            modalias_cut_ok(self@.modalias),
        ensures
            c == model_of_modalias(self@.modalias).caps(),
    {
        self.model().capabilities()
    }
}

// ---------------------------------------------------------------------
// `bluetoothctl devices` and `bluetoothctl info`
// ---------------------------------------------------------------------

/// The address on a `Device <addr> <name>` line.
pub open spec fn device_address(l: Seq<char>) -> Option<Seq<char>> {
    let i = index_of(l, ' ');
    if i < 0 || l.take(i) != "Device"@ {
        None
    } else {
        Some(split(l.skip(i + 1), ' ')[0])
    }
}

/// The addresses on the `Device` lines of a listing, in order.
pub open spec fn device_addresses(ls: Seq<Seq<char>>) -> Seq<Seq<char>>
    decreases ls.len(),
{
    if ls.len() == 0 {
        seq![]
    } else {
        let rest = device_addresses(ls.drop_last());
        match device_address(ls.last()) {
            Some(a) => rest.push(a),
            None => rest,
        }
    }
}

/// The addresses in `bluetoothctl devices [Paired]` output.
pub fn device_list(listing: &str) -> (r: Vec<String>)
    ensures
        strs_view(r@) == device_addresses(lines(listing@)),
{
    let ls = lines_of(&chars_of(listing));
    let ghost lv = views(ls@);
    let mut out: Vec<String> = Vec::new();
    let mut i: usize = 0;
    while i < ls.len()
        invariant
            i <= ls.len(),
            lv == views(ls@),
            strs_view(out@) == device_addresses(lv.take(i as int)),
        decreases ls.len() - i,
    {
        let ghost before = strs_view(out@);
        assert(lv.take(i + 1).drop_last() == lv.take(i as int));
        assert(lv.take(i + 1).last() == ls@[i as int]@);
        let line = &ls[i];
        match find(line, ' ') {
            Some(sp) => {
                if eq_str(&slice(line, 0, sp), "Device") {
                    let rest = slice(line, sp + 1, line.len());
                    let parts = split_chars(&rest, ' ');
                    proof {
                        crate::audio::lemma_split_nonempty(rest@, ' ');
                        assert(views(parts@)[0] == parts@[0]@);
                        assert(line@.take(sp as int) == line@.subrange(0, sp as int));
                        assert(line@.skip(sp + 1) == rest@);
                    }
                    out.push(string_of(&parts[0]));
                    assert(strs_view(out@) =~= before.push(parts@[0]@));
                } else {
                    assert(line@.take(sp as int) == line@.subrange(0, sp as int));
                }
            },
            None => {},
        }
        i += 1;
    }
    assert(lv.take(i as int) == lv);
    out
}

/// The value of the first `key value` line (leading whitespace ignored).
pub open spec fn field_of(ls: Seq<Seq<char>>, key: Seq<char>) -> Option<Seq<char>>
    decreases ls.len(),
{
    if ls.len() == 0 {
        None
    } else if starts_with(trim_start(ls[0]), key) {
        Some(trim(trim_start(ls[0]).skip(key.len() as int)))
    } else {
        field_of(ls.drop_first(), key)
    }
}

/// The value of `key` in `bluetoothctl info` output.
pub fn field(out: &str, key: &str) -> (r: Option<String>)
    ensures
        opt_view(r) == field_of(lines(out@), key@),
{
    let ls = lines_of(&chars_of(out));
    let ghost lv = views(ls@);
    let mut i: usize = 0;
    assert(lv.skip(0) == lv);
    while i < ls.len()
        invariant
            i <= ls.len(),
            lv == views(ls@),
            lv == lines(out@),
            field_of(lv.skip(i as int), key@) == field_of(lines(out@), key@),
        decreases ls.len() - i,
    {
        let ghost rest = lv.skip(i as int);
        assert(rest[0] == ls@[i as int]@);
        assert(rest.drop_first() == lv.skip(i + 1));
        let t = trim_start_chars(&ls[i]);
        match strip_prefix(&t, key) {
            Some(v) => {
                return Some(string_of(&trim_chars(&v)));
            },
            None => {},
        }
        i += 1;
    }
    None
}

pub open spec fn is_yes(v: Option<Seq<char>>) -> bool {
    v == Some("yes"@)
}

/// The device `addr` as `bluetoothctl info <addr>` output describes it.
pub open spec fn info_of(addr: Seq<char>, out: Seq<char>) -> DeviceView {
    let ls = lines(out);
    DeviceView {
        address: addr,
        name: match field_of(ls, "Name:"@) {
            Some(n) => n,
            None => addr,
        },
        connected: is_yes(field_of(ls, "Connected:"@)),
        trusted: is_yes(field_of(ls, "Trusted:"@)),
        paired: is_yes(field_of(ls, "Paired:"@)),
        modalias: field_of(ls, "Modalias:"@),
        icon: field_of(ls, "Icon:"@),
    }
}

fn yes(v: &Option<String>) -> (b: bool)
    ensures
        b == is_yes(opt_view(*v)),
{
    match v {
        Some(s) => eq_str(&chars_of(s.as_str()), "yes"),
        None => false,
    }
}

/// Reads `bluetoothctl info <addr>` output.
pub fn info(addr: &str, out: &str) -> (d: DeviceSummary)
    ensures
        d@ == info_of(addr@, out@),
{
    let name = match field(out, "Name:") {
        Some(n) => n,
        None => owned(addr),
    };
    let connected = yes(&field(out, "Connected:"));
    let trusted = yes(&field(out, "Trusted:"));
    let paired = yes(&field(out, "Paired:"));
    DeviceSummary {
        address: owned(addr),
        name,
        connected,
        trusted,
        paired,
        modalias: field(out, "Modalias:"),
        icon: field(out, "Icon:"),
    }
}

/// The signal strength in `bluetoothctl info` output (`None` when the
/// command failed or the value is missing or not an `i16`).
pub open spec fn rssi_of(out: Option<Seq<char>>) -> Option<i16> {
    match out {
        None => None,
        Some(o) => match field_of(lines(o), "RSSI:"@) {
            None => None,
            Some(v) => match parse_signed(v, -32768, 32767) {
                Some(x) => Some(x as i16),
                None => None,
            },
        },
    }
}

pub fn rssi(out: Option<&str>) -> (r: Option<i16>)
    ensures
        r == rssi_of(
            match out {
                Some(o) => Some(o@),
                None => None,
            },
        ),
{
    let o = match out {
        Some(o) => o,
        None => {
            return None;
        },
    };
    match field(o, "RSSI:") {
        Some(v) => match parse_signed_chars(&chars_of(v.as_str()), -32768, 32767) {
            Some(x) => Some(x as i16),
            None => None,
        },
        None => None,
    }
}

// ---------------------------------------------------------------------
// Choosing the AirPods
// ---------------------------------------------------------------------

/// Whether every modalias in `s` can be read.
pub open spec fn all_cut_ok(s: Seq<DeviceSummary>) -> bool {
    forall|i: int| 0 <= i < s.len() ==> modalias_cut_ok((#[trigger] s[i])@.modalias)
}

/// Whether `is_airpods` can decide on every device in `s`.
pub open spec fn all_decidable(s: Seq<DeviceSummary>) -> bool {
    forall|i: int| 0 <= i < s.len() ==> airpods_decidable((#[trigger] s[i])@)
}

/// The AirPods among `s`, in order.
pub open spec fn airpods_in(s: Seq<DeviceSummary>) -> Seq<DeviceSummary>
    decreases s.len(),
{
    if s.len() == 0 {
        seq![]
    } else {
        let rest = airpods_in(s.drop_last());
        if is_airpods_spec(s.last()@) {
            rest.push(s.last())
        } else {
            rest
        }
    }
}

/// Keeps the AirPods among `devs`, in order.
pub fn select_airpods(devs: Vec<DeviceSummary>) -> (r: Vec<DeviceSummary>)
    requires
        all_decidable(devs@),
    ensures
        r@ == airpods_in(devs@),
{
    let mut out: Vec<DeviceSummary> = Vec::new();
    let mut i: usize = 0;
    while i < devs.len()
        invariant
            i <= devs.len(),
            all_decidable(devs@),
            out@ == airpods_in(devs@.take(i as int)),
        decreases devs.len() - i,
    {
        assert(devs@.take(i + 1).drop_last() == devs@.take(i as int));
        assert(devs@.take(i + 1).last() == devs@[i as int]);
        assert(airpods_decidable(devs@[i as int]@));
        if devs[i].is_airpods() {
            out.push(devs[i].duplicate());
        }
        i += 1;
    }
    assert(devs@.take(i as int) == devs@);
    out
}

/// List order: connected devices first, then by name.
pub open spec fn listed_before(a: DeviceView, b: DeviceView) -> bool {
    (a.connected && !b.connected) || (a.connected == b.connected && lex_lt(a.name, b.name))
}

/// `x` inserted into the ordered `s` after every element it does not
/// come before (so equal keys keep their order).
pub open spec fn insert_listed(s: Seq<DeviceSummary>, x: DeviceSummary) -> Seq<DeviceSummary>
    decreases s.len(),
{
    if s.len() == 0 {
        seq![x]
    } else if listed_before(x@, s.last()@) {
        insert_listed(s.drop_last(), x).push(s.last())
    } else {
        s.push(x)
    }
}

/// `s` in list order; a stable sort.
pub open spec fn listed(s: Seq<DeviceSummary>) -> Seq<DeviceSummary>
    decreases s.len(),
{
    if s.len() == 0 {
        seq![]
    } else {
        insert_listed(listed(s.drop_last()), s.last())
    }
}

/// No device comes before one listed earlier.
pub open spec fn in_list_order(s: Seq<DeviceSummary>) -> bool {
    forall|i: int, j: int| 0 <= i < j < s.len() ==> !listed_before(#[trigger] s[j]@, #[trigger] s[i]@)
}

proof fn lemma_not_before_trans(a: DeviceView, b: DeviceView, c: DeviceView)
    requires
        !listed_before(b, a),
        !listed_before(c, b),
    ensures
        !listed_before(c, a),
{
    if listed_before(c, a) {
        if c.connected && !a.connected {
            assert(b.connected);
        } else if b.connected == a.connected {
            crate::text::lemma_lex_total(b.name, a.name);
            crate::text::lemma_lex_total(c.name, b.name);
            if b.name != a.name && c.name != b.name {
                crate::text::lemma_lex_transitive(a.name, b.name, c.name);
                crate::text::lemma_lex_asymmetric(c.name, a.name);
            } else if b.name == a.name && c.name != b.name {
                crate::text::lemma_lex_asymmetric(c.name, a.name);
            } else if b.name != a.name {
                crate::text::lemma_lex_asymmetric(c.name, a.name);
            } else {
                crate::text::lemma_lex_irreflexive(a.name);
            }
        }
    }
}

proof fn lemma_insert_listed(s: Seq<DeviceSummary>, x: DeviceSummary)
    ensures
        insert_listed(s, x).len() == s.len() + 1,
        insert_listed(s, x).to_multiset() == s.to_multiset().insert(x),
        forall|k: int|
            0 <= k < insert_listed(s, x).len() ==> (#[trigger] insert_listed(s, x)[k]) == x
                || s.contains(insert_listed(s, x)[k]),
        in_list_order(s) ==> in_list_order(insert_listed(s, x)),
    decreases s.len(),
{
    broadcast use vstd::seq_lib::to_multiset_build;

    let r = insert_listed(s, x);
    if s.len() == 0 {
        assert(r == seq![x]);
        assert(seq![x] =~= Seq::<DeviceSummary>::empty().push(x));
        assert(s =~= Seq::<DeviceSummary>::empty());
    } else if listed_before(x@, s.last()@) {
        let t = s.drop_last();
        lemma_insert_listed(t, x);
        let r1 = insert_listed(t, x);
        assert(r == r1.push(s.last()));
        assert(s =~= t.push(s.last()));
        assert(r.to_multiset() =~= s.to_multiset().insert(x)) by {
            broadcast use vstd::multiset::group_multiset_axioms;

            assert(t.to_multiset().insert(x).insert(s.last()) =~= t.to_multiset().insert(
                s.last(),
            ).insert(x));
        }
        assert forall|k: int| 0 <= k < r.len() implies (#[trigger] r[k]) == x || s.contains(r[k]) by {
            if k < r1.len() {
                assert(r[k] == r1[k]);
                if r1[k] != x {
                    let j = choose|j: int| 0 <= j < t.len() && t[j] == r1[k];
                    assert(s[j] == r1[k]);
                }
            } else {
                assert(s[s.len() - 1] == r[k]);
            }
        }
        if in_list_order(s) {
            assert(in_list_order(t));
            assert forall|i: int, j: int| 0 <= i < j < r.len() implies !listed_before(
                #[trigger] r[j]@,
                #[trigger] r[i]@,
            ) by {
                if j < r1.len() {
                    assert(r[i] == r1[i] && r[j] == r1[j]);
                } else {
                    assert(r[j] == s.last());
                    assert(r[i] == r1[i]);
                    if r1[i] == x {
                        crate::text::lemma_lex_asymmetric(x@.name, s.last()@.name);
                    } else {
                        let m = choose|m: int| 0 <= m < t.len() && t[m] == r1[i];
                        assert(s[m] == r1[i]);
                        assert(!listed_before(s[s.len() - 1]@, s[m]@));
                    }
                }
            }
        }
    } else {
        assert(r == s.push(x));
        assert forall|k: int| 0 <= k < r.len() implies (#[trigger] r[k]) == x || s.contains(r[k]) by {
            if k < s.len() {
                assert(s[k] == r[k]);
            }
        }
        if in_list_order(s) {
            assert forall|i: int, j: int| 0 <= i < j < r.len() implies !listed_before(
                #[trigger] r[j]@,
                #[trigger] r[i]@,
            ) by {
                if j < s.len() {
                    assert(r[i] == s[i] && r[j] == s[j]);
                } else {
                    assert(r[j] == x);
                    assert(r[i] == s[i]);
                    if i < s.len() - 1 {
                        assert(!listed_before(s[s.len() - 1]@, s[i]@));
                        lemma_not_before_trans(s[i]@, s[s.len() - 1]@, x@);
                    }
                }
            }
        }
    }
}

/// The `list` order is a stable sort: the result holds the same devices
/// and no device comes before one listed earlier (connected ones first,
/// then by name).
pub proof fn lemma_listed_sorted(s: Seq<DeviceSummary>)
    ensures
        listed(s).to_multiset() == s.to_multiset(),
        in_list_order(listed(s)),
    decreases s.len(),
{
    broadcast use vstd::seq_lib::to_multiset_build;

    if s.len() == 0 {
        assert(listed(s) =~= s);
    } else {
        let t = s.drop_last();
        lemma_listed_sorted(t);
        lemma_insert_listed(listed(t), s.last());
        assert(s =~= t.push(s.last()));
    }
}

fn before(a: &DeviceSummary, b: &DeviceSummary) -> (r: bool)
    ensures
        r == listed_before(a@, b@),
{
    (a.connected && !b.connected) || (a.connected == b.connected && lex_less(
        &chars_of(a.name.as_str()),
        &chars_of(b.name.as_str()),
    ))
}

/// Sorts `devs` into list order: connected first, then by name; devices
/// with the same key keep their order.
pub fn sort_airpods(devs: Vec<DeviceSummary>) -> (r: Vec<DeviceSummary>)
    ensures
        r@ == listed(devs@),
{
    let mut out: Vec<DeviceSummary> = Vec::new();
    let mut i: usize = 0;
    while i < devs.len()
        invariant
            i <= devs.len(),
            out@ == listed(devs@.take(i as int)),
        decreases devs.len() - i,
    {
        assert(devs@.take(i + 1).drop_last() == devs@.take(i as int));
        assert(devs@.take(i + 1).last() == devs@[i as int]);
        let x = devs[i].duplicate();
        let ghost s0 = out@;
        // Take off the tail that `x` comes before, push `x`, put the tail back.
        let mut tail: Vec<DeviceSummary> = Vec::new();
        while out.len() > 0 && before(&x, &out[out.len() - 1])
            invariant
                x == devs@[i as int],
                insert_listed(s0, x) == insert_listed(out@, x) + tail@.reverse(),
            decreases out.len(),
        {
            let ghost o = out@;
            let last = out.pop().unwrap();
            proof {
                assert(o.drop_last() == out@);
                assert(o.last() == last);
            }
            let ghost t0 = tail@;
            tail.push(last);
            proof {
                assert(tail@.reverse() =~= seq![last] + t0.reverse());
                assert(insert_listed(o, x) == insert_listed(out@, x).push(last));
                assert(insert_listed(out@, x).push(last) + t0.reverse() =~= insert_listed(out@, x)
                    + (seq![last] + t0.reverse()));
            }
        }
        out.push(x);
        proof {
            assert(insert_listed(out@.drop_last(), devs@[i as int]) == out@);
        }
        while tail.len() > 0
            invariant
                insert_listed(s0, devs@[i as int]) == out@ + tail@.reverse(),
            decreases tail.len(),
        {
            let ghost t = tail@;
            let y = tail.pop().unwrap();
            proof {
                assert(t.drop_last() == tail@);
                assert(t.last() == y);
                assert(t.reverse() =~= seq![y] + tail@.reverse());
            }
            let ghost o = out@;
            out.push(y);
            assert(o + (seq![y] + tail@.reverse()) =~= out@ + tail@.reverse());
        }
        assert(tail@.reverse() =~= Seq::<DeviceSummary>::empty());
        assert(out@ + Seq::<DeviceSummary>::empty() =~= out@);
        i += 1;
    }
    assert(devs@.take(i as int) == devs@);
    out
}

proof fn lemma_airpods_cut_ok(s: Seq<DeviceSummary>)
    requires
        all_cut_ok(s),
    ensures
        all_cut_ok(airpods_in(s)),
    decreases s.len(),
{
    if s.len() > 0 {
        lemma_airpods_cut_ok(s.drop_last());
        assert(modalias_cut_ok(s[s.len() - 1]@.modalias));
    }
}

proof fn lemma_insert_cut_ok(s: Seq<DeviceSummary>, x: DeviceSummary)
    requires
        all_cut_ok(s),
        modalias_cut_ok(x@.modalias),
    ensures
        all_cut_ok(insert_listed(s, x)),
    decreases s.len(),
{
    if s.len() > 0 {
        lemma_insert_cut_ok(s.drop_last(), x);
        assert(modalias_cut_ok(s[s.len() - 1]@.modalias));
    }
}

proof fn lemma_listed_cut_ok(s: Seq<DeviceSummary>)
    requires
        all_cut_ok(s),
    ensures
        all_cut_ok(listed(s)),
    decreases s.len(),
{
    if s.len() > 0 {
        lemma_listed_cut_ok(s.drop_last());
        assert(modalias_cut_ok(s[s.len() - 1]@.modalias));
        lemma_insert_cut_ok(listed(s.drop_last()), s.last());
    }
}

/// The AirPods among the paired devices, in list order.
pub fn paired_airpods(devs: Vec<DeviceSummary>) -> (r: Vec<DeviceSummary>)
    requires
        all_decidable(devs@),
    ensures
        r@ == listed(airpods_in(devs@)),
        all_cut_ok(devs@) ==> all_cut_ok(r@),
{
    proof {
        if all_cut_ok(devs@) {
            lemma_airpods_cut_ok(devs@);
            lemma_listed_cut_ok(airpods_in(devs@));
        }
    }
    sort_airpods(select_airpods(devs))
}

/// The first device found that is not paired yet: what `pair` pairs.
pub fn first_unpaired(found: &Vec<DeviceSummary>) -> (r: Option<usize>)
    ensures
        match r {
            Some(i) => i < found@.len() && !found@[i as int].paired && forall|j: int|
                0 <= j < i ==> (#[trigger] found@[j]).paired,
            None => forall|i: int| 0 <= i < found@.len() ==> (#[trigger] found@[i]).paired,
        },
{
    let mut i: usize = 0;
    while i < found.len()
        invariant
            i <= found.len(),
            forall|j: int| 0 <= j < i ==> (#[trigger] found@[j]).paired,
        decreases found.len() - i,
    {
        if !found[i].paired {
            return Some(i);
        }
        i += 1;
    }
    None
}

/// The `list` entries for `devs`, in the same order.
pub fn paired_devices(devs: &Vec<DeviceSummary>) -> (r: Vec<PairedDevice>)
    requires
        all_cut_ok(devs@),
    ensures
        r@.len() == devs@.len(),
        forall|i: int|
            0 <= i < devs@.len() ==> {
                &&& (#[trigger] r@[i]).address@ == devs@[i].address@
                &&& r@[i].name@ == devs@[i].name@
                &&& opt_view(r@[i].model) == Some(model_of_modalias(devs@[i]@.modalias).title())
                &&& r@[i].connected == devs@[i].connected
                &&& r@[i].trusted == devs@[i].trusted
            },
{
    let mut out: Vec<PairedDevice> = Vec::new();
    let mut i: usize = 0;
    while i < devs.len()
        invariant
            i <= devs.len(),
            all_cut_ok(devs@),
            out@.len() == i,
            forall|j: int|
                0 <= j < i ==> {
                    &&& (#[trigger] out@[j]).address@ == devs@[j].address@
                    &&& out@[j].name@ == devs@[j].name@
                    &&& opt_view(out@[j].model) == Some(model_of_modalias(devs@[j]@.modalias).title())
                    &&& out@[j].connected == devs@[j].connected
                    &&& out@[j].trusted == devs@[j].trusted
                },
        decreases devs.len() - i,
    {
        assert(modalias_cut_ok(devs@[i as int]@.modalias));
        out.push(to_paired_device(&devs[i]));
        i += 1;
    }
    out
}

/// The device to act on: the first connected one, else the first one.
pub open spec fn primary_of(s: Seq<DeviceSummary>) -> Option<DeviceSummary> {
    if exists|i: int| 0 <= i < s.len() && (#[trigger] s[i]).connected {
        let i = choose|i: int|
            0 <= i < s.len() && s[i].connected && forall|j: int| 0 <= j < i ==> !s[j].connected;
        Some(s[i])
    } else if s.len() > 0 {
        Some(s[0])
    } else {
        None
    }
}

pub fn primary_airpods(all: &Vec<DeviceSummary>) -> (r: Option<DeviceSummary>)
    ensures
        r == primary_of(all@),
{
    let mut i: usize = 0;
    while i < all.len()
        invariant
            i <= all.len(),
            forall|j: int| 0 <= j < i ==> !(#[trigger] all@[j]).connected,
        decreases all.len() - i,
    {
        if all[i].connected {
            let r = all[i].duplicate();
            proof {
                let w = choose|k: int|
                    0 <= k < all@.len() && all@[k].connected && forall|j: int|
                        0 <= j < k ==> !all@[j].connected;
                assert(0 <= i < all@.len() && all@[i as int].connected && forall|j: int|
                    0 <= j < i ==> !all@[j].connected);
                if w < i {
                    assert(!all@[w].connected);
                } else if w > i {
                    assert(!all@[i as int].connected);
                }
            }
            return Some(r);
        }
        i += 1;
    }
    if all.len() > 0 {
        Some(all[0].duplicate())
    } else {
        None
    }
}

pub fn to_paired_device(s: &DeviceSummary) -> (d: PairedDevice)
    requires
        modalias_cut_ok(s@.modalias),
    ensures
        d.address@ == s.address@,
        d.name@ == s.name@,
        opt_view(d.model) == Some(model_of_modalias(s@.modalias).title()),
        d.connected == s.connected,
        d.trusted == s.trusted,
{
    PairedDevice {
        address: s.address.clone(),
        name: s.name.clone(),
        model: Some(owned(s.model().label())),
        connected: s.connected,
        trusted: s.trusted,
    }
}

/// Link facts; `rssi` is what `bluetoothctl info` reports right now.
pub fn bt_state(s: &DeviceSummary, rssi: Option<i16>) -> (b: BtState)
    ensures
        b == (BtState {
            rssi_dbm: rssi,
            paired: s.paired,
            trusted: s.trusted,
            auto_connect: s.trusted,
        }),
{
    BtState { rssi_dbm: rssi, paired: s.paired, trusted: s.trusted, auto_connect: s.trusted }
}

// ---------------------------------------------------------------------
// `bluetoothctl` commands
// ---------------------------------------------------------------------

fn args2(a: &str, b: &str) -> (r: Vec<String>)
    ensures
        strs_view(r@) == seq![a@, b@],
{
    let mut r = Vec::new();
    r.push(owned(a));
    r.push(owned(b));
    assert(strs_view(r@) =~= seq![a@, b@]);
    r
}

/// `bluetoothctl connect <addr>`.
pub fn connect(addr: &str) -> (args: Vec<String>)
    ensures
        strs_view(args@) == seq!["connect"@, addr@],
{
    args2("connect", addr)
}

/// `bluetoothctl disconnect <addr>`.
pub fn disconnect(addr: &str) -> (args: Vec<String>)
    ensures
        strs_view(args@) == seq!["disconnect"@, addr@],
{
    args2("disconnect", addr)
}

/// `bluetoothctl trust|untrust <addr>`.
pub fn set_trusted(addr: &str, on: bool) -> (args: Vec<String>)
    ensures
        strs_view(args@) == seq![
            if on {
                "trust"@
            } else {
                "untrust"@
            },
            addr@,
        ],
{
    args2(
        if on {
            "trust"
        } else {
            "untrust"
        },
        addr,
    )
}

/// `bluetoothctl remove <addr>`.
pub fn unpair(addr: &str) -> (args: Vec<String>)
    ensures
        strs_view(args@) == seq!["remove"@, addr@],
{
    args2("remove", addr)
}

/// `bluetoothctl pair <addr>`, then `bluetoothctl trust <addr>` (whose
/// failure does not fail the pairing).
pub fn pair(addr: &str) -> (cmds: Vec<Vec<String>>)
    ensures
        cmds@.len() == 2,
        strs_view(cmds@[0]@) == seq!["pair"@, addr@],
        strs_view(cmds@[1]@) == seq!["trust"@, addr@],
{
    let mut cmds = Vec::new();
    cmds.push(args2("pair", addr));
    cmds.push(args2("trust", addr));
    cmds
}

/// After `bluetoothctl pair <addr>`: the `trust` command to run when the
/// pairing succeeded, nothing when it failed.
pub fn trust_after(addr: &str, paired: &Result<(), String>) -> (r: Option<Vec<String>>)
    ensures
        match *paired {
            Ok(_) => r matches Some(c) && strs_view(c@) == seq!["trust"@, addr@],
            Err(_) => r is None,
        },
{
    match paired {
        Ok(_) => Some(args2("trust", addr)),
        Err(_) => None,
    }
}

/// What pairing answers: a failed `pair` is the error; otherwise `Ok`,
/// whatever the `trust` that followed gave (or if none ran).
pub fn pair_outcome(paired: Result<(), String>, trusted: Option<Result<(), String>>) -> (r: Result<
    (),
    String,
>)
    ensures
        match paired {
            Ok(_) => r is Ok,
            Err(e) => r == Err::<(), String>(e),
        },
{
    match paired {
        Ok(_) => Ok(()),
        Err(e) => Err(e),
    }
}

/// The adapter to use: `PODCTL_ADAPTER` when set and not blank, else the
/// first `hci*` entry of `/sys/class/bluetooth` without a `:`.
pub open spec fn adapter_of(env: Option<Seq<char>>, entries: Seq<Seq<char>>) -> Option<Seq<char>> {
    match env {
        Some(v) if trim(v).len() > 0 => Some(trim(v)),
        _ => if exists|i: int| 0 <= i < entries.len() && adapter_entry(#[trigger] entries[i]) {
            let i = choose|i: int|
                0 <= i < entries.len() && adapter_entry(entries[i]) && forall|j: int|
                    0 <= j < i ==> !adapter_entry(entries[j]);
            Some(entries[i])
        } else {
            None
        },
    }
}

pub open spec fn adapter_entry(n: Seq<char>) -> bool {
    starts_with(n, "hci"@) && !(exists|k: int| 0 <= k < n.len() && n[k] == ':')
}

pub fn pick_adapter(env: Option<&str>, entries: &Vec<String>) -> (r: Option<String>)
    ensures
        opt_view(r) == adapter_of(
            match env {
                Some(v) => Some(v@),
                None => None,
            },
            strs_view(entries@),
        ),
{
    match env {
        Some(v) => {
            let t = trim_chars(&chars_of(v));
            if t.len() > 0 {
                return Some(string_of(&t));
            }
        },
        None => {},
    }
    let ghost ev = strs_view(entries@);
    let mut i: usize = 0;
    while i < entries.len()
        invariant
            i <= entries.len(),
            ev == strs_view(entries@),
            match env {
                Some(v) => trim(v@).len() == 0,
                None => true,
            },
            forall|j: int| 0 <= j < i ==> !adapter_entry(#[trigger] ev[j]),
        decreases entries.len() - i,
    {
        let n = chars_of(entries[i].as_str());
        assert(ev[i as int] == n@);
        let has_colon = has_char(&n, ':');
        if starts_with_str(&n, "hci") && !has_colon {
            let r = entries[i].clone();
            proof {
                let w = choose|k: int|
                    0 <= k < ev.len() && adapter_entry(ev[k]) && forall|j: int|
                        0 <= j < k ==> !adapter_entry(ev[j]);
                assert(0 <= i < ev.len() && adapter_entry(ev[i as int]));
                if w < i {
                    assert(!adapter_entry(ev[w]));
                } else if w > i {
                    assert(!adapter_entry(ev[i as int]));
                }
            }
            return Some(r);
        }
        i += 1;
    }
    None
}

/// The D-Bus object path of device `addr` on `adapter`.
pub open spec fn device_path_of(adapter: Seq<char>, addr: Seq<char>) -> Seq<char> {
    "/org/bluez/"@ + adapter + "/dev_"@ + replaced(addr, ':', '_')
}

/// `dbus-send` arguments that set the BlueZ alias of `addr` to `alias`.
pub fn set_alias(adapter: &str, addr: &str, alias: &str) -> (args: Vec<String>)
    ensures
        strs_view(args@) == seq![
            "--system"@,
            "--print-reply"@,
            "--dest=org.bluez"@,
            device_path_of(adapter@, addr@),
            "org.freedesktop.DBus.Properties.Set"@,
            "string:org.bluez.Device1"@,
            "string:Alias"@,
            "variant:string:"@ + alias@,
        ],
{
    let mut path = owned("/org/bluez/");
    push_str(&mut path, adapter);
    push_str(&mut path, "/dev_");
    push_chars(&mut path, &replace_char(&chars_of(addr), ':', '_'));
    let mut variant = owned("variant:string:");
    push_str(&mut variant, alias);
    let mut r = Vec::new();
    r.push(owned("--system"));
    r.push(owned("--print-reply"));
    r.push(owned("--dest=org.bluez"));
    r.push(path);
    r.push(owned("org.freedesktop.DBus.Properties.Set"));
    r.push(owned("string:org.bluez.Device1"));
    r.push(owned("string:Alias"));
    r.push(variant);
    assert(strs_view(r@) =~= seq![
        "--system"@,
        "--print-reply"@,
        "--dest=org.bluez"@,
        device_path_of(adapter@, addr@),
        "org.freedesktop.DBus.Properties.Set"@,
        "string:org.bluez.Device1"@,
        "string:Alias"@,
        "variant:string:"@ + alias@,
    ]);
    r
}

} // verus!
