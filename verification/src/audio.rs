//! The audio side: what `pactl` reports about the AirPods sink and card,
//! and the `pactl` commands that change them.
//!
//! Running `pactl` is the caller's business; these functions read its
//! output and say which arguments to run it with.

use vstd::prelude::*;

use crate::model::{AudioState, Profile};
use crate::text::{
    chars_of, contains, contains_str, count_char, count_of, decimal, decimal_chars, eq_chars,
    eq_str, find, index_of, insert_sorted, join_strings, joined, last_field, last_field_chars,
    lines, lines_of, lower, lower_chars, opt_view, owned, parse_unsigned, parse_unsigned_chars,
    push_chars, push_str, replace_char, replaced, signed_decimal, signed_decimal_chars, slice,
    sorted_unique, split, split_chars, starts_with, starts_with_str, string_of, strip_all_prefix,
    strip_all_prefix_chars, strip_prefix, strs_view, trim, trim_chars, trim_start,
    trim_start_chars, utf8_len, utf8_len_upto, views,
};

verus! {

/// The AirPods playback sink.
#[derive(Clone, Debug)]
pub struct SinkInfo {
    pub name: String,
    pub address: String,
    pub id: u32,
    pub is_default: bool,
}

pub struct SinkView {
    pub name: Seq<char>,
    pub address: Seq<char>,
    pub id: u32,
    pub is_default: bool,
}

impl View for SinkInfo {
    type V = SinkView;

    open spec fn view(&self) -> SinkView {
        SinkView { name: self.name@, address: self.address@, id: self.id, is_default: self.is_default }
    }
}

/// The AirPods card and its profiles.
#[derive(Clone, Debug)]
pub struct CardInfo {
    pub name: String,
    pub address: String,
    pub active_profile: String,
    pub profiles: Vec<String>,
    pub codec: Option<String>,
}

pub struct CardView {
    pub name: Seq<char>,
    pub address: Seq<char>,
    pub active_profile: Seq<char>,
    pub profiles: Seq<Seq<char>>,
    pub codec: Option<Seq<char>>,
}

impl View for CardInfo {
    type V = CardView;

    open spec fn view(&self) -> CardView {
        CardView {
            name: self.name@,
            address: self.address@,
            active_profile: self.active_profile@,
            profiles: strs_view(self.profiles@),
            codec: opt_view(self.codec),
        }
    }
}

// ---------------------------------------------------------------------
// Names, addresses, codecs
// ---------------------------------------------------------------------

/// The Bluetooth address in a `bluez_output.AA_BB_..` or
/// `bluez_card.AA_BB_..` node name, written with colons.
pub open spec fn address_of(name: Seq<char>) -> Option<Seq<char>> {
    let body = if starts_with(name, "bluez_output."@) {
        Some(name.skip("bluez_output."@.len() as int))
    } else if starts_with(name, "bluez_card."@) {
        Some(name.skip("bluez_card."@.len() as int))
    } else {
        None
    };
    match body {
        None => None,
        Some(b) => {
            let w = replaced(split(b, '.')[0], '_', ':');
            if utf8_len(w) == 17 && count_of(w, ':') == 5 {
                Some(w)
            } else {
                None
            }
        },
    }
}

pub proof fn lemma_split_nonempty(s: Seq<char>, c: char)
    ensures
        split(s, c).len() >= 1,
    decreases s.len(),
{
    let i = index_of(s, c);
    if 0 <= i < s.len() {
        lemma_split_nonempty(s.skip(i + 1), c);
    }
}

pub fn extract_address(name: &Vec<char>) -> (r: Option<String>)
    ensures
        opt_view(r) == address_of(name@),
{
    let body = match strip_prefix(name, "bluez_output.") {
        Some(b) => b,
        None => match strip_prefix(name, "bluez_card.") {
            Some(b) => b,
            None => {
                return None;
            },
        },
    };
    let parts = split_chars(&body, '.');
    proof {
        lemma_split_nonempty(body@, '.');
        assert(views(parts@)[0] == parts@[0]@);
    }
    let w = replace_char(&parts[0], '_', ':');
    match utf8_len_upto(&w, 17) {
        Some(n) => {
            if n == 17 && count_char(&w, ':') == 5 {
                Some(string_of(&w))
            } else {
                None
            }
        },
        None => None,
    }
}

/// The codec an active profile name implies.
pub open spec fn codec_of(profile: Seq<char>) -> Option<Seq<char>> {
    if profile == "a2dp-sink"@ {
        Some("aac"@)
    } else if starts_with(profile, "a2dp-sink-"@) {
        Some(profile.skip("a2dp-sink-"@.len() as int))
    } else {
        None
    }
}

pub fn extract_codec(profile: &Vec<char>) -> (r: Option<String>)
    ensures
        opt_view(r) == codec_of(profile@),
{
    if eq_str(profile, "a2dp-sink") {
        return Some(owned("aac"));
    }
    match strip_prefix(profile, "a2dp-sink-") {
        Some(rest) => Some(string_of(&rest)),
        None => None,
    }
}

/// The profile kind an active profile name belongs to.
pub open spec fn logical_profile_of(active: Seq<char>) -> Option<Profile> {
    if active.len() == 0 || active == "off"@ {
        Some(Profile::Off)
    } else if starts_with(active, "a2dp-sink"@) {
        Some(Profile::HighQuality)
    } else if starts_with(active, "headset-head-unit"@) {
        Some(Profile::Headset)
    } else {
        None
    }
}

pub fn logical_profile(active: &Vec<char>) -> (r: Option<Profile>)
    ensures
        r == logical_profile_of(active@),
{
    if active.len() == 0 || eq_str(active, "off") {
        Some(Profile::Off)
    } else if starts_with_str(active, "a2dp-sink") {
        Some(Profile::HighQuality)
    } else if starts_with_str(active, "headset-head-unit") {
        Some(Profile::Headset)
    } else {
        None
    }
}

// ---------------------------------------------------------------------
// `pactl get-*` output
// ---------------------------------------------------------------------

/// The volume in `pactl get-sink-volume` output: the number before the
/// first `%`, capped at 150.
pub open spec fn volume_percent_of(out: Seq<char>) -> Option<u8> {
    let pct = trim(last_field(split(out, '%')[0]));
    match parse_unsigned(pct, 255) {
        Some(v) => Some(
            if v <= 150 {
                v as u8
            } else {
                150u8
            },
        ),
        None => None,
    }
}

/// Reads the volume from `pactl get-sink-volume` output (`None` when the
/// command failed).
pub fn parse_sink_volume_percent(out: Option<&str>) -> (r: Option<u8>)
    ensures
        r == match out {
            Some(o) => volume_percent_of(o@),
            None => None,
        },
{
    let o = match out {
        Some(o) => o,
        None => {
            return None;
        },
    };
    let v = chars_of(o);
    let pieces = split_chars(&v, '%');
    proof {
        lemma_split_nonempty(v@, '%');
        assert(views(pieces@)[0] == pieces@[0]@);
    }
    let field = last_field_chars(&pieces[0]);
    let pct = trim_chars(&field);
    match parse_unsigned_chars(&pct, 255) {
        Some(x) => Some(
            if x <= 150 {
                x as u8
            } else {
                150u8
            },
        ),
        None => None,
    }
}

/// Reads the mute flag from `pactl get-sink-mute` output (`false` when
/// the command failed).
pub fn parse_sink_mute(out: Option<&str>) -> (r: bool)
    ensures
        r == match out {
            Some(o) => contains(o@, "yes"@),
            None => false,
        },
{
    match out {
        Some(o) => contains_str(&chars_of(o), "yes"),
        None => false,
    }
}

/// The default sink's name from `pactl get-default-sink` output.
pub fn default_sink_name(out: &str) -> (r: String)
    ensures
        r@ == trim(out@),
{
    string_of(&trim_chars(&chars_of(out)))
}

// ---------------------------------------------------------------------
// `pactl list sinks short`
// ---------------------------------------------------------------------

/// The first AirPods sink among the lines of `pactl list sinks short`
/// (`id<TAB>name<TAB>...`). A line whose id does not parse, that has no
/// name column, or whose AirPods name carries no address, ends the scan
/// with `None`.
pub open spec fn sink_scan(ls: Seq<Seq<char>>, default: Option<Seq<char>>) -> Option<SinkView>
    decreases ls.len(),
{
    if ls.len() == 0 {
        None
    } else {
        let cols = split(ls[0], '\t');
        match parse_unsigned(cols[0], 0xffff_ffff) {
            None => None,
            Some(id) => if cols.len() < 2 {
                None
            } else if !starts_with(cols[1], "bluez_output."@) {
                sink_scan(ls.drop_first(), default)
            } else {
                match address_of(cols[1]) {
                    None => None,
                    Some(a) => Some(
                        SinkView {
                            name: cols[1],
                            address: a,
                            id: id as u32,
                            is_default: default == Some(cols[1]),
                        },
                    ),
                }
            },
        }
    }
}

/// Finds the AirPods sink in `pactl list sinks short` output; `default`
/// is the default sink's name, when known.
pub fn primary_sink(listing: &str, default: Option<&str>) -> (r: Option<SinkInfo>)
    ensures
        match r {
            Some(s) => sink_scan(
                lines(listing@),
                match default {
                    Some(d) => Some(d@),
                    None => None,
                },
            ) == Some(s@),
            None => sink_scan(
                lines(listing@),
                match default {
                    Some(d) => Some(d@),
                    None => None,
                },
            ) is None,
        },
{
    let ghost dv = match default {
        Some(d) => Some(d@),
        None => None,
    };
    let dchars: Option<Vec<char>> = match default {
        Some(d) => Some(chars_of(d)),
        None => None,
    };
    let ls = lines_of(&chars_of(listing));
    let ghost lv = views(ls@);
    let mut i: usize = 0;
    assert(lv.skip(0) == lv);
    while i < ls.len()
        invariant
            i <= ls.len(),
            lv == views(ls@),
            lv == lines(listing@),
            dv == match default {
                Some(d) => Some(d@),
                None => None,
            },
            dchars matches Some(d) ==> dv == Some(d@),
            dchars is None ==> dv is None,
            sink_scan(lv.skip(i as int), dv) == sink_scan(lines(listing@), dv),
        decreases ls.len() - i,
    {
        let ghost rest = lv.skip(i as int);
        assert(rest[0] == ls@[i as int]@);
        assert(rest.drop_first() == lv.skip(i + 1));
        let cols = split_chars(&ls[i], '\t');
        proof {
            lemma_split_nonempty(ls@[i as int]@, '\t');
            assert(views(cols@)[0] == cols@[0]@);
        }
        let id = match parse_unsigned_chars(&cols[0], 0xffff_ffff) {
            Some(id) => id,
            None => {
                return None;
            },
        };
        if cols.len() < 2 {
            return None;
        }
        assert(views(cols@)[1] == cols@[1]@);
        if starts_with_str(&cols[1], "bluez_output.") {
            let address = match extract_address(&cols[1]) {
                Some(a) => a,
                None => {
                    return None;
                },
            };
            let is_default = match &dchars {
                Some(d) => eq_chars(d, &cols[1]),
                None => false,
            };
            return Some(
                SinkInfo { name: string_of(&cols[1]), address, id: id as u32, is_default },
            );
        }
        i += 1;
    }
    None
}

// ---------------------------------------------------------------------
// `pactl list cards`
// ---------------------------------------------------------------------

pub open spec fn is_card_header(l: Seq<char>) -> bool {
    starts_with(l, "Card #"@)
}

/// Lines grouped into blocks, a new block starting at each `Card #` line.
pub open spec fn group_blocks(ls: Seq<Seq<char>>, cur: Seq<Seq<char>>) -> Seq<Seq<Seq<char>>>
    decreases ls.len(),
{
    if ls.len() == 0 {
        if cur.len() == 0 {
            seq![]
        } else {
            seq![cur]
        }
    } else if is_card_header(ls[0]) && cur.len() > 0 {
        seq![cur] + group_blocks(ls.drop_first(), seq![ls[0]])
    } else {
        group_blocks(ls.drop_first(), cur.push(ls[0]))
    }
}

pub open spec fn card_blocks(out: Seq<char>) -> Seq<Seq<Seq<char>>> {
    group_blocks(lines(out), seq![])
}

/// The first line of a block that starts with `key` once its leading
/// whitespace is dropped.
pub open spec fn keyed_line(b: Seq<Seq<char>>, key: Seq<char>) -> Option<Seq<char>>
    decreases b.len(),
{
    if b.len() == 0 {
        None
    } else if starts_with(trim_start(b[0]), key) {
        Some(b[0])
    } else {
        keyed_line(b.drop_first(), key)
    }
}

/// The value after `key` on a `key value` line.
pub open spec fn keyed_value(l: Seq<char>, key: Seq<char>) -> Seq<char> {
    trim(strip_all_prefix(trim_start(l), key))
}

/// The profile names listed under `Profiles:`: each indented
/// `name: description` line up to the first line that is not indented.
pub open spec fn profile_scan(b: Seq<Seq<char>>, in_profiles: bool) -> Seq<Seq<char>>
    decreases b.len(),
{
    if b.len() == 0 {
        seq![]
    } else {
        let l = b[0];
        if starts_with(trim_start(l), "Profiles:"@) {
            profile_scan(b.drop_first(), true)
        } else if in_profiles {
            if !starts_with(l, "\t\t"@) && !starts_with(l, "        "@) {
                seq![]
            } else {
                let i = index_of(l, ':');
                let rest = profile_scan(b.drop_first(), true);
                if 0 <= i && trim(l.take(i)).len() > 0 {
                    seq![trim(l.take(i))] + rest
                } else {
                    rest
                }
            }
        } else {
            profile_scan(b.drop_first(), false)
        }
    }
}

pub open spec fn active_profile_of(b: Seq<Seq<char>>) -> Seq<char> {
    match keyed_line(b, "Active Profile:"@) {
        Some(l) => keyed_value(l, "Active Profile:"@),
        None => seq![],
    }
}

/// The card a block describes.
pub open spec fn card_of(b: Seq<Seq<char>>, name: Seq<char>, address: Seq<char>) -> CardView {
    CardView {
        name,
        address,
        active_profile: active_profile_of(b),
        profiles: profile_scan(b, false),
        codec: codec_of(active_profile_of(b)),
    }
}

/// The block whose `Name:` is `target`. A block without a `Name:` line,
/// or a matching name without an address, ends the search with `None`.
pub open spec fn card_search(bs: Seq<Seq<Seq<char>>>, target: Seq<char>) -> Option<CardView>
    decreases bs.len(),
{
    if bs.len() == 0 {
        None
    } else {
        match keyed_line(bs[0], "Name:"@) {
            None => None,
            Some(nl) => {
                let name = keyed_value(nl, "Name:"@);
                if name != target {
                    card_search(bs.drop_first(), target)
                } else {
                    match address_of(name) {
                        None => None,
                        Some(a) => Some(card_of(bs[0], name, a)),
                    }
                }
            },
        }
    }
}

pub open spec fn views2(v: Seq<Vec<Vec<char>>>) -> Seq<Seq<Seq<char>>> {
    v.map_values(|b: Vec<Vec<char>>| views(b@))
}

fn copy_chars(v: &Vec<char>) -> (r: Vec<char>)
    ensures
        r@ == v@,
{
    slice(v, 0, v.len())
}

fn group_card_blocks(ls: &Vec<Vec<char>>) -> (r: Vec<Vec<Vec<char>>>)
    ensures
        views2(r@) == group_blocks(views(ls@), seq![]),
{
    let ghost lv = views(ls@);
    let mut blocks: Vec<Vec<Vec<char>>> = Vec::new();
    let mut cur: Vec<Vec<char>> = Vec::new();
    let mut i: usize = 0;
    assert(lv.skip(0) == lv);
    assert(views(cur@) =~= Seq::<Seq<char>>::empty());
    assert(views2(blocks@) =~= Seq::<Seq<Seq<char>>>::empty());
    assert(views2(blocks@) + group_blocks(lv, views(cur@)) =~= group_blocks(lv, seq![]));
    while i < ls.len()
        invariant
            i <= ls.len(),
            lv == views(ls@),
            views2(blocks@) + group_blocks(lv.skip(i as int), views(cur@)) == group_blocks(
                lv,
                seq![],
            ),
        decreases ls.len() - i,
    {
        let ghost rest = lv.skip(i as int);
        assert(rest[0] == ls@[i as int]@);
        assert(rest.drop_first() == lv.skip(i + 1));
        let line = copy_chars(&ls[i]);
        if starts_with_str(&line, "Card #") && cur.len() > 0 {
            let ghost old_blocks = blocks@;
            let ghost old_cur = cur@;
            let mut fresh: Vec<Vec<char>> = Vec::new();
            fresh.push(line);
            let mut done = fresh;
            std::mem::swap(&mut cur, &mut done);
            blocks.push(done);
            proof {
                assert(views(old_cur).len() > 0);
                assert(views(cur@) =~= seq![ls@[i as int]@]);
                assert(views2(blocks@) =~= views2(old_blocks).push(views(old_cur)));
                assert(views2(blocks@) + group_blocks(lv.skip(i + 1), views(cur@)) =~= views2(
                    old_blocks,
                ) + (seq![views(old_cur)] + group_blocks(lv.skip(i + 1), views(cur@))));
            }
        } else {
            let ghost old_cur = cur@;
            cur.push(line);
            proof {
                assert(views(cur@) =~= views(old_cur).push(ls@[i as int]@));
            }
        }
        i += 1;
    }
    let ghost old_blocks = blocks@;
    assert(lv.skip(i as int) =~= Seq::<Seq<char>>::empty());
    if cur.len() > 0 {
        blocks.push(cur);
        assert(views2(blocks@) =~= views2(old_blocks).push(views(cur@)));
        assert(views2(blocks@) =~= views2(old_blocks) + seq![views(cur@)]);
    } else {
        assert(views(cur@) =~= Seq::<Seq<char>>::empty());
        assert(views2(blocks@) =~= views2(old_blocks) + Seq::<Seq<Seq<char>>>::empty());
    }
    blocks
}

fn keyed_line_of(b: &Vec<Vec<char>>, key: &str) -> (r: Option<Vec<char>>)
    ensures
        match r {
            Some(l) => keyed_line(views(b@), key@) == Some(l@),
            None => keyed_line(views(b@), key@) is None,
        },
{
    let ghost bv = views(b@);
    let mut i: usize = 0;
    assert(bv.skip(0) == bv);
    while i < b.len()
        invariant
            i <= b.len(),
            bv == views(b@),
            keyed_line(bv.skip(i as int), key@) == keyed_line(bv, key@),
        decreases b.len() - i,
    {
        let ghost rest = bv.skip(i as int);
        assert(rest[0] == b@[i as int]@);
        assert(rest.drop_first() == bv.skip(i + 1));
        if starts_with_str(&trim_start_chars(&b[i]), key) {
            return Some(copy_chars(&b[i]));
        }
        i += 1;
    }
    None
}

fn keyed_value_of(l: &Vec<char>, key: &str) -> (r: Vec<char>)
    ensures
        r@ == keyed_value(l@, key@),
{
    trim_chars(&strip_all_prefix_chars(&trim_start_chars(l), key))
}

fn profiles_of(b: &Vec<Vec<char>>) -> (r: Vec<String>)
    ensures
        strs_view(r@) == profile_scan(views(b@), false),
{
    let ghost bv = views(b@);
    let mut out: Vec<String> = Vec::new();
    let mut in_profiles = false;
    let mut i: usize = 0;
    assert(bv.skip(0) == bv);
    assert(strs_view(out@) + profile_scan(bv, false) =~= profile_scan(bv, false));
    while i < b.len()
        invariant
            i <= b.len(),
            bv == views(b@),
            strs_view(out@) + profile_scan(bv.skip(i as int), in_profiles) == profile_scan(
                bv,
                false,
            ),
        decreases b.len() - i,
    {
        let ghost rest = bv.skip(i as int);
        let ghost old_out = strs_view(out@);
        assert(rest[0] == b@[i as int]@);
        assert(rest.drop_first() == bv.skip(i + 1));
        let line = &b[i];
        if starts_with_str(&trim_start_chars(line), "Profiles:") {
            in_profiles = true;
        } else if in_profiles {
            if !starts_with_str(line, "\t\t") && !starts_with_str(line, "        ") {
                assert(profile_scan(rest, true) =~= Seq::<Seq<char>>::empty());
                assert(old_out + Seq::<Seq<char>>::empty() =~= old_out);
                return out;
            }
            match find(line, ':') {
                Some(idx) => {
                    let n = trim_chars(&slice(line, 0, idx));
                    assert(line@.take(idx as int) == line@.subrange(0, idx as int));
                    if n.len() > 0 {
                        out.push(string_of(&n));
                        proof {
                            assert(strs_view(out@) =~= old_out.push(n@));
                            assert(strs_view(out@) + profile_scan(bv.skip(i + 1), true) =~= old_out
                                + (seq![n@] + profile_scan(bv.skip(i + 1), true)));
                        }
                    }
                },
                None => {},
            }
        }
        i += 1;
    }
    assert(bv.skip(i as int) =~= Seq::<Seq<char>>::empty());
    assert(strs_view(out@) + Seq::<Seq<char>>::empty() =~= strs_view(out@));
    out
}

/// Finds the card named `target` in `pactl list cards` output.
pub fn parse_card_block(out: &str, target: &str) -> (r: Option<CardInfo>)
    ensures
        match r {
            Some(c) => card_search(card_blocks(out@), target@) == Some(c@),
            None => card_search(card_blocks(out@), target@) is None,
        },
{
    let ls = lines_of(&chars_of(out));
    let blocks = group_card_blocks(&ls);
    let tv = chars_of(target);
    let ghost bs = views2(blocks@);
    assert(bs == card_blocks(out@));
    let mut i: usize = 0;
    assert(bs.skip(0) == bs);
    while i < blocks.len()
        invariant
            i <= blocks.len(),
            bs == views2(blocks@),
            bs == card_blocks(out@),
            tv@ == target@,
            card_search(bs.skip(i as int), target@) == card_search(card_blocks(out@), target@),
        decreases blocks.len() - i,
    {
        let ghost rest = bs.skip(i as int);
        assert(rest[0] == views(blocks@[i as int]@));
        assert(rest.drop_first() == bs.skip(i + 1));
        let block = &blocks[i];
        let name_line = match keyed_line_of(block, "Name:") {
            Some(l) => l,
            None => {
                return None;
            },
        };
        let name = keyed_value_of(&name_line, "Name:");
        if eq_chars(&name, &tv) {
            let address = match extract_address(&name) {
                Some(a) => a,
                None => {
                    return None;
                },
            };
            let active = match keyed_line_of(block, "Active Profile:") {
                Some(l) => keyed_value_of(&l, "Active Profile:"),
                None => Vec::new(),
            };
            assert(active@ == active_profile_of(views(block@)));
            let profiles = profiles_of(block);
            let codec = extract_codec(&active);
            return Some(
                CardInfo {
                    name: string_of(&name),
                    address,
                    active_profile: string_of(&active),
                    profiles,
                    codec,
                },
            );
        }
        i += 1;
    }
    None
}

/// The card name that belongs to a sink: `bluez_card.` and the address
/// with `_` for `:`.
pub open spec fn card_name_for(sink: SinkView) -> Seq<char> {
    "bluez_card."@ + replaced(sink.address, ':', '_')
}

/// The card of the AirPods sink `sink` in `pactl list cards` output.
pub fn primary_card(sink: &SinkInfo, cards: &str) -> (r: Option<CardInfo>)
    ensures
        match r {
            Some(c) => card_search(card_blocks(cards@), card_name_for(sink@)) == Some(c@),
            None => card_search(card_blocks(cards@), card_name_for(sink@)) is None,
        },
{
    let mut target = owned("bluez_card.");
    push_chars(&mut target, &replace_char(&chars_of(sink.address.as_str()), ':', '_'));
    parse_card_block(cards, target.as_str())
}

// ---------------------------------------------------------------------
// Profiles and codecs
// ---------------------------------------------------------------------

/// The codecs a list of profile names offers, in list order.
pub open spec fn codecs_in(profiles: Seq<Seq<char>>) -> Seq<Seq<char>>
    decreases profiles.len(),
{
    if profiles.len() == 0 {
        seq![]
    } else {
        let rest = codecs_in(profiles.drop_last());
        match codec_of(profiles.last()) {
            Some(c) => rest.push(c),
            None => rest,
        }
    }
}

/// The card's codecs, sorted and without duplicates.
pub fn available_codecs(card: &CardInfo) -> (out: Vec<String>)
    ensures
        strs_view(out@) == codec_list(card@),
        sorted_unique(strs_view(out@)),
        forall|c: Seq<char>|
            strs_view(out@).contains(c) <==> codecs_in(card@.profiles).contains(c),
{
    let ghost ps = card@.profiles;
    let mut out: Vec<String> = Vec::new();
    let mut i: usize = 0;
    while i < card.profiles.len()
        invariant
            i <= card.profiles.len(),
            ps == strs_view(card.profiles@),
            sorted_unique(strs_view(out@)),
            forall|c: Seq<char>|
                strs_view(out@).contains(c) <==> codecs_in(ps.take(i as int)).contains(c),
        decreases card.profiles.len() - i,
    {
        let ghost before = codecs_in(ps.take(i as int));
        assert(ps.take(i + 1).drop_last() == ps.take(i as int));
        assert(ps.take(i + 1).last() == card.profiles@[i as int]@);
        let p = chars_of(card.profiles[i].as_str());
        match extract_codec(&p) {
            Some(c) => {
                let ghost cv = c@;
                insert_sorted(&mut out, c);
                proof {
                    let after = codecs_in(ps.take(i + 1));
                    assert(after == before.push(cv));
                    assert forall|x: Seq<char>| after.contains(x) <==> (before.contains(x) || x
                        == cv) by {
                        if after.contains(x) {
                            let k = choose|k: int| 0 <= k < after.len() && after[k] == x;
                            if k < before.len() {
                                assert(before[k] == x);
                            }
                        }
                        if before.contains(x) {
                            let k = choose|k: int| 0 <= k < before.len() && before[k] == x;
                            assert(after[k] == x);
                        }
                        if x == cv {
                            assert(after[before.len() as int] == x);
                        }
                    }
                }
            },
            None => {},
        }
        i += 1;
    }
    assert(ps.take(i as int) == ps);
    proof {
        lemma_codec_list(card@, strs_view(out@));
    }
    out
}

/// The profiles that serve a kind, most preferred first.
pub open spec fn profile_prefs(kind: Profile) -> Seq<Seq<char>> {
    match kind {
        Profile::HighQuality => seq![
            "a2dp-sink"@,
            "a2dp-sink-aac"@,
            "a2dp-sink-sbc_xq"@,
            "a2dp-sink-sbc"@,
        ],
        Profile::Headset => seq![
            "headset-head-unit"@,
            "headset-head-unit-msbc"@,
            "headset-head-unit-cvsd"@,
        ],
        Profile::Off => seq!["off"@],
    }
}

/// The first preference the card offers.
pub open spec fn first_offered(prefs: Seq<Seq<char>>, offered: Seq<Seq<char>>) -> Option<Seq<char>>
    decreases prefs.len(),
{
    if prefs.len() == 0 {
        None
    } else if offered.contains(prefs[0]) {
        Some(prefs[0])
    } else {
        first_offered(prefs.drop_first(), offered)
    }
}

/// The choice `pick_profile` makes, by preference: high quality takes
/// `a2dp-sink`, else `a2dp-sink-aac`, else `a2dp-sink-sbc_xq`, else
/// `a2dp-sink-sbc`; the headset takes `headset-head-unit`, else its mSBC
/// variant, else its CVSD variant; off takes `off`. The first of these the
/// card offers is chosen, and there is no choice when it offers none.
pub proof fn lemma_profile_preference(offered: Seq<Seq<char>>)
    ensures
        first_offered(profile_prefs(Profile::HighQuality), offered) == if offered.contains(
            "a2dp-sink"@,
        ) {
            Some("a2dp-sink"@)
        } else if offered.contains("a2dp-sink-aac"@) {
            Some("a2dp-sink-aac"@)
        } else if offered.contains("a2dp-sink-sbc_xq"@) {
            Some("a2dp-sink-sbc_xq"@)
        } else if offered.contains("a2dp-sink-sbc"@) {
            Some("a2dp-sink-sbc"@)
        } else {
            None
        },
        first_offered(profile_prefs(Profile::Headset), offered) == if offered.contains(
            "headset-head-unit"@,
        ) {
            Some("headset-head-unit"@)
        } else if offered.contains("headset-head-unit-msbc"@) {
            Some("headset-head-unit-msbc"@)
        } else if offered.contains("headset-head-unit-cvsd"@) {
            Some("headset-head-unit-cvsd"@)
        } else {
            None
        },
        first_offered(profile_prefs(Profile::Off), offered) == if offered.contains("off"@) {
            Some("off"@)
        } else {
            None
        },
{
    reveal_with_fuel(first_offered, 5);
    let hq = profile_prefs(Profile::HighQuality);
    assert(hq.drop_first() =~= seq!["a2dp-sink-aac"@, "a2dp-sink-sbc_xq"@, "a2dp-sink-sbc"@]);
    assert(hq.drop_first().drop_first() =~= seq!["a2dp-sink-sbc_xq"@, "a2dp-sink-sbc"@]);
    assert(hq.drop_first().drop_first().drop_first() =~= seq!["a2dp-sink-sbc"@]);
    assert(hq.drop_first().drop_first().drop_first().drop_first() =~= Seq::<Seq<char>>::empty());
    let hs = profile_prefs(Profile::Headset);
    assert(hs.drop_first() =~= seq!["headset-head-unit-msbc"@, "headset-head-unit-cvsd"@]);
    assert(hs.drop_first().drop_first() =~= seq!["headset-head-unit-cvsd"@]);
    assert(hs.drop_first().drop_first().drop_first() =~= Seq::<Seq<char>>::empty());
    let off = profile_prefs(Profile::Off);
    assert(off.drop_first() =~= Seq::<Seq<char>>::empty());
}

/// Switching to a kind and reading the active profile back gives that
/// kind: every profile `pick_profile` may choose for `kind` is classified
/// as `kind`.
pub proof fn lemma_picked_profile_reads_back(offered: Seq<Seq<char>>, kind: Profile)
    ensures
        first_offered(profile_prefs(kind), offered) matches Some(p) ==> logical_profile_of(p)
            == Some(kind),
{
    lemma_profile_preference(offered);
    reveal_strlit("a2dp-sink");
    reveal_strlit("a2dp-sink-aac");
    reveal_strlit("a2dp-sink-sbc_xq");
    reveal_strlit("a2dp-sink-sbc");
    reveal_strlit("headset-head-unit");
    reveal_strlit("headset-head-unit-msbc");
    reveal_strlit("headset-head-unit-cvsd");
    reveal_strlit("off");
    assert("a2dp-sink"@.take(9) =~= "a2dp-sink"@);
    assert("a2dp-sink-aac"@.take(9) =~= "a2dp-sink"@);
    assert("a2dp-sink-sbc_xq"@.take(9) =~= "a2dp-sink"@);
    assert("a2dp-sink-sbc"@.take(9) =~= "a2dp-sink"@);
    assert("headset-head-unit"@.take(17) =~= "headset-head-unit"@);
    assert("headset-head-unit-msbc"@.take(17) =~= "headset-head-unit"@);
    assert("headset-head-unit-cvsd"@.take(17) =~= "headset-head-unit"@);
    assert("a2dp-sink"@.len() != "off"@.len() || "a2dp-sink"@[0] != "off"@[0]);
    assert("a2dp-sink-aac"@.len() != "off"@.len() || "a2dp-sink-aac"@[0] != "off"@[0]);
    assert("a2dp-sink-sbc_xq"@.len() != "off"@.len() || "a2dp-sink-sbc_xq"@[0] != "off"@[0]);
    assert("a2dp-sink-sbc"@.len() != "off"@.len() || "a2dp-sink-sbc"@[0] != "off"@[0]);
    assert("headset-head-unit"@.len() != "off"@.len() || "headset-head-unit"@[0] != "off"@[0]);
    assert("headset-head-unit-msbc"@.len() != "off"@.len() || "headset-head-unit-msbc"@[0] != "off"@[0]);
    assert("headset-head-unit-cvsd"@.len() != "off"@.len() || "headset-head-unit-cvsd"@[0] != "off"@[0]);
    assert("a2dp-sink"@.len() <= 17);
    assert(!starts_with("headset-head-unit"@, "a2dp-sink"@)) by {
        assert("headset-head-unit"@.take(9)[0] != "a2dp-sink"@[0]);
    }
    assert(!starts_with("headset-head-unit-msbc"@, "a2dp-sink"@)) by {
        assert("headset-head-unit-msbc"@.take(9)[0] != "a2dp-sink"@[0]);
    }
    assert(!starts_with("headset-head-unit-cvsd"@, "a2dp-sink"@)) by {
        assert("headset-head-unit-cvsd"@.take(9)[0] != "a2dp-sink"@[0]);
    }
}

fn prefs_of(kind: Profile) -> (r: Vec<&'static str>)
    ensures
        r@.map_values(|s: &str| s@) == profile_prefs(kind),
{
    let mut r: Vec<&'static str> = Vec::new();
    match kind {
        Profile::HighQuality => {
            r.push("a2dp-sink");
            r.push("a2dp-sink-aac");
            r.push("a2dp-sink-sbc_xq");
            r.push("a2dp-sink-sbc");
        },
        Profile::Headset => {
            r.push("headset-head-unit");
            r.push("headset-head-unit-msbc");
            r.push("headset-head-unit-cvsd");
        },
        Profile::Off => {
            r.push("off");
        },
    }
    assert(r@.map_values(|s: &str| s@) =~= profile_prefs(kind));
    r
}

/// Whether `v` holds a string equal to `x`.
pub fn contains_string(v: &Vec<String>, x: &Vec<char>) -> (b: bool)
    ensures
        b == strs_view(v@).contains(x@),
{
    let mut i: usize = 0;
    while i < v.len()
        invariant
            i <= v.len(),
            forall|j: int| 0 <= j < i ==> v@[j]@ != x@,
        decreases v.len() - i,
    {
        if eq_chars(&chars_of(v[i].as_str()), x) {
            assert(strs_view(v@)[i as int] == x@);
            return true;
        }
        i += 1;
    }
    assert forall|j: int| 0 <= j < strs_view(v@).len() implies strs_view(v@)[j] != x@ by {
        assert(strs_view(v@)[j] == v@[j]@);
    }
    false
}

/// `"no matching profile for '<kind>' (available: <profiles>)"`
pub open spec fn no_profile_msg(kind: Profile, card: CardView) -> Seq<char> {
    "no matching profile for '"@ + kind.label() + "' (available: "@ + joined(card.profiles, ", "@)
        + ")"@
}

/// The card profile to switch to for `kind`.
pub fn pick_profile(card: &CardInfo, kind: Profile) -> (r: Result<String, String>)
    ensures
        match r {
            Ok(p) => first_offered(profile_prefs(kind), card@.profiles) == Some(p@),
            Err(e) => first_offered(profile_prefs(kind), card@.profiles) is None && e@
                == no_profile_msg(kind, card@),
        },
{
    let prefs = prefs_of(kind);
    let ghost pv = prefs@.map_values(|s: &str| s@);
    let mut i: usize = 0;
    assert(pv.skip(0) == pv);
    while i < prefs.len()
        invariant
            i <= prefs.len(),
            pv == prefs@.map_values(|s: &str| s@),
            pv == profile_prefs(kind),
            first_offered(pv.skip(i as int), card@.profiles) == first_offered(pv, card@.profiles),
        decreases prefs.len() - i,
    {
        let ghost rest = pv.skip(i as int);
        assert(rest[0] == prefs@[i as int]@);
        assert(rest.drop_first() == pv.skip(i + 1));
        let p = chars_of(prefs[i]);
        if contains_string(&card.profiles, &p) {
            return Ok(owned(prefs[i]));
        }
        i += 1;
    }
    let mut e = owned("no matching profile for '");
    push_str(&mut e, kind.as_str());
    push_str(&mut e, "' (available: ");
    let joined_profiles = join_strings(&card.profiles, ", ");
    push_str(&mut e, joined_profiles.as_str());
    push_str(&mut e, ")");
    Err(e)
}

// ---------------------------------------------------------------------
// The `pactl` commands
// ---------------------------------------------------------------------

fn args2(a: &str, b: &str) -> (r: Vec<String>)
    ensures
        strs_view(r@) == seq![a@, b@],
{
    let mut r = Vec::new();
    r.push(owned(a));
    r.push(owned(b));
    assert(strs_view(r@) =~= seq![a@, b@]);
    r
}

fn args3(a: &str, b: &str, c: &str) -> (r: Vec<String>)
    ensures
        strs_view(r@) == seq![a@, b@, c@],
{
    let mut r = Vec::new();
    r.push(owned(a));
    r.push(owned(b));
    r.push(owned(c));
    assert(strs_view(r@) =~= seq![a@, b@, c@]);
    r
}

fn args4(a: &str, b: &str, c: &str, d: &str) -> (r: Vec<String>)
    ensures
        strs_view(r@) == seq![a@, b@, c@, d@],
{
    let mut r = Vec::new();
    r.push(owned(a));
    r.push(owned(b));
    r.push(owned(c));
    r.push(owned(d));
    assert(strs_view(r@) =~= seq![a@, b@, c@, d@]);
    r
}

/// `pactl set-sink-volume <sink> <percent>%`.
pub fn set_volume(sink: &SinkInfo, percent: u8) -> (args: Vec<String>)
    ensures
        strs_view(args@) == seq![
            "set-sink-volume"@,
            sink.name@,
            decimal(percent as nat) + "%"@,
        ],
{
    let mut pct = string_of(&decimal_chars(percent as u64));
    push_str(&mut pct, "%");
    args3("set-sink-volume", sink.name.as_str(), pct.as_str())
}

/// `pactl set-sink-mute <sink> 1|0`.
pub fn set_muted(sink: &SinkInfo, muted: bool) -> (args: Vec<String>)
    ensures
        strs_view(args@) == seq![
            "set-sink-mute"@,
            sink.name@,
            if muted {
                "1"@
            } else {
                "0"@
            },
        ],
{
    args3(
        "set-sink-mute",
        sink.name.as_str(),
        if muted {
            "1"
        } else {
            "0"
        },
    )
}

/// `pactl set-default-sink <sink>`.
pub fn set_default(sink: &SinkInfo) -> (args: Vec<String>)
    ensures
        strs_view(args@) == seq!["set-default-sink"@, sink.name@],
{
    args2("set-default-sink", sink.name.as_str())
}

/// `pactl set-card-profile <card> <profile>` for the best profile of `kind`.
pub fn set_profile(card: &CardInfo, kind: Profile) -> (r: Result<Vec<String>, String>)
    ensures
        match r {
            Ok(args) => first_offered(profile_prefs(kind), card@.profiles) matches Some(p)
                && strs_view(args@) == seq!["set-card-profile"@, card.name@, p],
            Err(e) => first_offered(profile_prefs(kind), card@.profiles) is None && e@
                == no_profile_msg(kind, card@),
        },
{
    let target = pick_profile(card, kind)?;
    Ok(args3("set-card-profile", card.name.as_str(), target.as_str()))
}

/// The profile a codec name selects.
pub open spec fn codec_profile(codec: Seq<char>) -> Seq<char> {
    if codec == "aac"@ {
        "a2dp-sink"@
    } else {
        "a2dp-sink-"@ + codec
    }
}

/// The codec read back from the profile a codec switch selects is the
/// codec asked for, and AAC is the plain `a2dp-sink` profile.
pub proof fn lemma_codec_profile_reads_back(c: Seq<char>)
    ensures
        codec_of(codec_profile(c)) == Some(c),
        codec_profile("aac"@) == "a2dp-sink"@,
{
    reveal_strlit("aac");
    reveal_strlit("a2dp-sink");
    reveal_strlit("a2dp-sink-");
    if c != "aac"@ {
        let t = "a2dp-sink-"@ + c;
        assert(t.len() != "a2dp-sink"@.len());
        assert(t.take("a2dp-sink-"@.len() as int) =~= "a2dp-sink-"@);
        assert(t.skip("a2dp-sink-"@.len() as int) =~= c);
    }
}

pub open spec fn codecs_sorted(card: CardView, out: Seq<Seq<char>>) -> bool {
    &&& sorted_unique(out)
    &&& forall|c: Seq<char>| out.contains(c) <==> codecs_in(card.profiles).contains(c)
}

/// The card's codecs in order: the one sequence that is strictly sorted
/// and holds exactly the codecs its profiles name.
pub open spec fn codec_list(card: CardView) -> Seq<Seq<char>> {
    choose|s: Seq<Seq<char>>| codecs_sorted(card, s)
}

/// The sorted codec list is determined by the card.
pub proof fn lemma_codec_list(card: CardView, s: Seq<Seq<char>>)
    requires
        codecs_sorted(card, s),
    ensures
        s == codec_list(card),
{
    let t = codec_list(card);
    assert(codecs_sorted(card, t));
    crate::text::lemma_sorted_unique_same(s, t);
}

/// `pactl set-card-profile <card> <profile>` for a codec name (trimmed,
/// ASCII-lowercased). Fails when the card has no such profile; the
/// message then lists the card's codecs.
pub fn set_codec(card: &CardInfo, codec: &str) -> (r: Result<Vec<String>, String>)
    ensures
        ({
            let c = lower(trim(codec@));
            match r {
                Ok(args) => card@.profiles.contains(codec_profile(c)) && strs_view(args@) == seq![
                    "set-card-profile"@,
                    card.name@,
                    codec_profile(c),
                ],
                Err(e) => !card@.profiles.contains(codec_profile(c)) && exists|cs: Seq<Seq<char>>|
                    codecs_sorted(card@, cs) && e@ == "codec '"@ + c + "' not available (try one of: "@
                        + joined(cs, ", "@) + ")"@,
            }
        }),
{
    let c = lower_chars(&trim_chars(&chars_of(codec)));
    let target = if eq_str(&c, "aac") {
        owned("a2dp-sink")
    } else {
        let mut t = owned("a2dp-sink-");
        push_chars(&mut t, &c);
        t
    };
    if !contains_string(&card.profiles, &chars_of(target.as_str())) {
        let codecs = available_codecs(card);
        let mut e = owned("codec '");
        push_chars(&mut e, &c);
        push_str(&mut e, "' not available (try one of: ");
        push_str(&mut e, join_strings(&codecs, ", ").as_str());
        push_str(&mut e, ")");
        assert(codecs_sorted(card@, strs_view(codecs@)));
        return Err(e);
    }
    Ok(args3("set-card-profile", card.name.as_str(), target.as_str()))
}

/// The two `pactl set-port-latency-offset` commands (headphone and
/// hands-free port) for an offset of `ms` milliseconds, in microseconds.
pub fn set_latency_offset(card: &CardInfo, ms: i32) -> (cmds: Vec<Vec<String>>)
    ensures
        cmds@.len() == 2,
        strs_view(cmds@[0]@) == seq![
            "set-port-latency-offset"@,
            card.name@,
            "headphone-output"@,
            signed_decimal(ms * 1000),
        ],
        strs_view(cmds@[1]@) == seq![
            "set-port-latency-offset"@,
            card.name@,
            "headphone-hf-output"@,
            signed_decimal(ms * 1000),
        ],
{
    let usec = string_of(&signed_decimal_chars((ms as i64) * 1000));
    let mut cmds = Vec::new();
    cmds.push(
        args4("set-port-latency-offset", card.name.as_str(), "headphone-output", usec.as_str()),
    );
    cmds.push(
        args4("set-port-latency-offset", card.name.as_str(), "headphone-hf-output", usec.as_str()),
    );
    cmds
}

/// What setting the latency offset answers once both commands of
/// [`set_latency_offset`] ran: always `Ok`, since a card has only one of
/// the two ports and the other command is expected to fail.
pub fn latency_outcome(results: &Vec<Result<(), String>>) -> (r: Result<(), String>)
    ensures
        r is Ok,
{
    Ok(())
}

/// The audio state from the sink, its card, and the outputs of
/// `pactl get-sink-volume` / `get-sink-mute` (`None` where a command
/// failed). No sink: the empty state.
pub fn snapshot(
    sink: Option<&SinkInfo>,
    card: Option<&CardInfo>,
    volume_out: Option<&str>,
    mute_out: Option<&str>,
) -> (a: AudioState)
    ensures
        match sink {
            None => a.is_empty(),
            Some(s) => {
                &&& a.volume_percent == match volume_out {
                    Some(o) => volume_percent_of(o@),
                    None => None,
                }
                &&& a.muted == match mute_out {
                    Some(o) => contains(o@, "yes"@),
                    None => false,
                }
                &&& a.is_default_sink == s.is_default
                &&& a.latency_offset_ms == 0
                &&& match card {
                    Some(c) => {
                        &&& a.profile == logical_profile_of(c.active_profile@)
                        &&& opt_view(a.codec) == opt_view(c.codec)
                        &&& codecs_sorted(c@, strs_view(a.available_codecs@))
                    },
                    None => a.profile is None && a.codec is None && a.available_codecs@.len()
                        == 0,
                }
            },
        },
{
    let s = match sink {
        Some(s) => s,
        None => {
            return AudioState::default();
        },
    };
    let volume_percent = parse_sink_volume_percent(volume_out);
    let muted = parse_sink_mute(mute_out);
    let (profile, codec, available) = match card {
        Some(c) => {
            let codec = match &c.codec {
                Some(x) => Some(x.clone()),
                None => None,
            };
            (logical_profile(&chars_of(c.active_profile.as_str())), codec, available_codecs(c))
        },
        None => (None, None, Vec::new()),
    };
    AudioState {
        volume_percent,
        muted,
        profile,
        codec,
        available_codecs: available,
        is_default_sink: s.is_default,
        latency_offset_ms: 0,
    }
}

} // verus!
