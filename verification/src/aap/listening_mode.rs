use vstd::prelude::*;

verus! {

pub const OFF: u8 = 0x01;
pub const NOISE_CANCEL: u8 = 0x02;
pub const TRANSPARENCY: u8 = 0x03;
pub const ADAPTIVE: u8 = 0x04;

} // verus!
