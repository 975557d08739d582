use vstd::prelude::*;

verus! {

pub const IN_EAR: u8 = 0x00;
pub const OUT: u8 = 0x01;
pub const IN_CASE: u8 = 0x02;

} // verus!
