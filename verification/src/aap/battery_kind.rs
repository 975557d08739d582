use vstd::prelude::*;

verus! {

pub const RIGHT: u8 = 0x02;
pub const LEFT: u8 = 0x04;
pub const CASE: u8 = 0x08;

} // verus!
