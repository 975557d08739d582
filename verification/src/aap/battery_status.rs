use vstd::prelude::*;

verus! {

pub const UNKNOWN: u8 = 0x00;
pub const CHARGING: u8 = 0x01;
pub const DISCHARGING: u8 = 0x02;
pub const DISCONNECTED: u8 = 0x04;

} // verus!
