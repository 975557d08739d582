//! Bluetooth addresses as the kernel's `sockaddr_l2` wants them.

use vstd::prelude::*;

use crate::text::{chars_of, parse_hex, parse_hex_chars, split, split_chars, views};

verus! {

/// What `"AA:BB:CC:DD:EE:FF"` denotes: six hex bytes, least significant
/// (last written) first.
pub open spec fn mac_bytes(s: Seq<char>) -> Option<Seq<u8>> {
    let parts = split(s, ':');
    if parts.len() == 6 && (forall|i: int| 0 <= i < 6 ==> (#[trigger] parse_hex(parts[i], 255)) is Some) {
        Some(Seq::new(6, |k: int| parse_hex(parts[5 - k], 255)->0 as u8))
    } else {
        None
    }
}

/// Parses "AA:BB:CC:DD:EE:FF" → [FF, EE, DD, CC, BB, AA].
pub fn parse_mac(s: &str) -> (r: Option<[u8; 6]>)
    ensures
        match r {
            Some(a) => mac_bytes(s@) == Some(a@),
            None => mac_bytes(s@) is None,
        },
{
    let v = chars_of(s);
    let parts = split_chars(&v, ':');
    let ghost ps = split(s@, ':');
    assert(views(parts@) == ps);
    if parts.len() != 6 {
        assert(ps.len() == parts@.len());
        return None;
    }
    let mut out = [0u8; 6];
    let mut i: usize = 0;
    while i < 6
        invariant
            parts@.len() == 6,
            ps == split(s@, ':'),
            views(parts@) == ps,
            i <= 6,
            forall|j: int| 0 <= j < i ==> (#[trigger] parse_hex(ps[j], 255)) is Some,
            forall|k: int|
                0 <= k < 6 && 5 - k < i ==> out@[k] == parse_hex(ps[5 - k], 255)->0 as u8,
        decreases 6 - i,
    {
        assert(ps[i as int] == parts@[i as int]@);
        match parse_hex_chars(&parts[i], 255) {
            Some(b) => {
                out[5 - i] = b as u8;
            },
            None => {
                assert(parse_hex(ps[i as int], 255) is None);
                return None;
            },
        }
        i += 1;
    }
    assert(out@ =~= Seq::new(6, |k: int| parse_hex(ps[5 - k], 255)->0 as u8));
    Some(out)
}

} // verus!
