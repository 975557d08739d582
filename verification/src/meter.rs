//! `podctl meter`: the integer side of the level meter — its options,
//! the monitor source it records from, and how much audio one reading
//! covers. The decibel arithmetic is floating point and stays outside.

use vstd::prelude::*;

use crate::text::{
    chars_of, ends_with, ends_with_str, eq_str, lines, lines_of, owned, push_chars, slice, split,
    split_chars, starts_with, starts_with_str, strs_view, views,
};

verus! {

/// Samples per second `parec` is asked for.
pub const SAMPLE_RATE: u32 = 44100;

/// Interleaved channels.
pub const CHANNELS: u32 = 2;

/// The value of option `key`: the argument after `key`, or the text
/// after `key=`; the first occurrence decides.
pub open spec fn arg_value_of(a: Seq<Seq<char>>, key: Seq<char>) -> Option<Seq<char>>
    decreases a.len(),
{
    if a.len() == 0 {
        None
    } else if a[0] == key {
        if a.len() > 1 {
            Some(a[1])
        } else {
            None
        }
    } else if starts_with(a[0], key + "="@) {
        Some(a[0].skip(key.len() + 1int))
    } else {
        arg_value_of(a.drop_first(), key)
    }
}

pub fn arg_value(args: &[String], key: &str) -> (r: Option<String>)
    ensures
        match r {
            Some(v) => arg_value_of(strs_view(args@), key@) == Some(v@),
            None => arg_value_of(strs_view(args@), key@) is None,
        },
{
    let ghost all = strs_view(args@);
    let k = chars_of(key);
    let mut ke = chars_of(key);
    ke.push('=');
    assert(ke@ =~= key@ + "="@) by {
        reveal_strlit("=");
    }
    let mut i: usize = 0;
    assert(all.skip(0) =~= all);
    while i < args.len()
        invariant
            i <= args@.len(),
            all == strs_view(args@),
            k@ == key@,
            ke@ == key@ + "="@,
            arg_value_of(all, key@) == arg_value_of(all.skip(i as int), key@),
        decreases args.len() - i,
    {
        let a = chars_of(args[i].as_str());
        assert(all.skip(i as int)[0] == a@);
        assert(all.skip(i as int).drop_first() =~= all.skip(i + 1));
        if crate::text::eq_chars(&a, &k) {
            if i + 1 < args.len() {
                assert(all.skip(i as int)[1] == args@[i + 1]@);
                return Some(args[i + 1].clone());
            } else {
                return None;
            }
        }
        if crate::text::starts_with_chars(&a, &ke) {
            proof {
                reveal_strlit("=");
            }
            let rest = slice(&a, ke.len(), a.len());
            let mut r = String::new();
            push_chars(&mut r, &rest);
            assert(r@ =~= a@.skip(key@.len() + 1int));
            return Some(r);
        }
        i += 1;
    }
    assert(all.skip(i as int) =~= Seq::<Seq<char>>::empty());
    None
}

/// The AirPods monitor source in `pactl list short sources` output: the
/// first `bluez_output.*.monitor` name. A line without a second field
/// ends the search with nothing.
pub open spec fn monitor_in(ls: Seq<Seq<char>>) -> Option<Seq<char>>
    decreases ls.len(),
{
    if ls.len() == 0 {
        None
    } else {
        let p = split(ls[0], '\t');
        if p.len() < 2 {
            None
        } else if starts_with(p[1], "bluez_output."@) && ends_with(p[1], ".monitor"@) {
            Some(p[1])
        } else {
            monitor_in(ls.drop_first())
        }
    }
}

pub fn monitor_source(listing: &str) -> (r: Option<String>)
    ensures
        match r {
            Some(n) => monitor_in(lines(listing@)) == Some(n@),
            None => monitor_in(lines(listing@)) is None,
        },
{
    let ls = lines_of(&chars_of(listing));
    let ghost all = views(ls@);
    let mut i: usize = 0;
    assert(all.skip(0) =~= all);
    while i < ls.len()
        invariant
            i <= ls@.len(),
            all == views(ls@),
            all == lines(listing@),
            monitor_in(all) == monitor_in(all.skip(i as int)),
        decreases ls.len() - i,
    {
        assert(all.skip(i as int)[0] == ls@[i as int]@);
        assert(all.skip(i as int).drop_first() =~= all.skip(i + 1));
        let p = split_chars(&ls[i], '\t');
        if p.len() < 2 {
            return None;
        }
        assert(views(p@)[1] == p@[1]@);
        if starts_with_str(&p[1], "bluez_output.") && ends_with_str(&p[1], ".monitor") {
            let mut r = String::new();
            push_chars(&mut r, &p[1]);
            assert(r@ =~= p@[1]@);
            return Some(r);
        }
        i += 1;
    }
    assert(all.skip(i as int) =~= Seq::<Seq<char>>::empty());
    None
}

/// Bytes of s16le audio one reading of `interval_ms` covers.
pub open spec fn window_len(interval_ms: u64) -> int {
    (SAMPLE_RATE * interval_ms / 1000) * CHANNELS * 2
}

pub fn window_bytes(interval_ms: u64) -> (n: usize)
    requires
        SAMPLE_RATE * interval_ms <= u64::MAX,
        window_len(interval_ms) <= usize::MAX,
    ensures
        n == window_len(interval_ms),
{
    let samples = (SAMPLE_RATE as u64 * interval_ms / 1000) as usize;
    samples * (CHANNELS as usize) * 2
}

/// The loudest sample of a buffer of s16le samples, as an unsigned
/// magnitude (a trailing odd byte is ignored).
pub open spec fn peak_in(b: Seq<u8>) -> u16
    decreases b.len(),
{
    if b.len() < 2 {
        0
    } else {
        let v = sample_at(b, 0);
        let rest = peak_in(b.skip(2));
        if v > rest {
            v
        } else {
            rest
        }
    }
}

/// `i16::from_le_bytes([b[k], b[k+1]]).unsigned_abs()`.
pub open spec fn sample_at(b: Seq<u8>, k: int) -> u16 {
    let raw = b[k] as int + 256 * b[k + 1] as int;
    let signed = if raw >= 32768 {
        raw - 65536
    } else {
        raw
    };
    (if signed < 0 {
        -signed
    } else {
        signed
    }) as u16
}

proof fn lemma_peak_step(b: Seq<u8>, k: int)
    requires
        0 <= k,
        k + 2 <= b.len(),
        k % 2 == 0,
    ensures
        peak_in(b.skip(k)) == (if sample_at(b, k) > peak_in(b.skip(k + 2)) {
            sample_at(b, k)
        } else {
            peak_in(b.skip(k + 2))
        }),
{
    let s = b.skip(k);
    assert(s.skip(2) =~= b.skip(k + 2));
    assert(sample_at(s, 0) == sample_at(b, k));
}

pub fn peak_of(buf: &[u8]) -> (p: u16)
    ensures
        p == peak_in(buf@),
{
    let n = buf.len() / 2 * 2;
    let mut k: usize = n;
    let mut peak: u16 = 0;
    assert(peak_in(buf@.skip(n as int)) == 0);
    while k >= 2
        invariant
            k <= n,
            n <= buf@.len(),
            n - 1 <= buf@.len() - 1,
            k % 2 == 0,
            n + 2 > buf@.len(),
            peak == peak_in(buf@.skip(k as int)),
        decreases k,
    {
        k -= 2;
        let raw: u32 = buf[k] as u32 + 256 * buf[k + 1] as u32;
        let mag: u16 = if raw >= 32768 {
            (65536 - raw) as u16
        } else {
            raw as u16
        };
        proof {
            lemma_peak_step(buf@, k as int);
        }
        assert(mag == sample_at(buf@, k as int));
        if mag > peak {
            peak = mag;
        }
    }
    assert(buf@.skip(0) =~= buf@);
    peak
}

} // verus!
