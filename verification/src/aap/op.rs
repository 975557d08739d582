use vstd::prelude::*;

verus! {

pub const HANDSHAKE: u8 = 0x00;
pub const BATTERY: u8 = 0x04;
pub const EAR_DETECTION: u8 = 0x06;
pub const SETTINGS: u8 = 0x09;
pub const SUBSCRIBE_NOTIF: u8 = 0x0F;
pub const METADATA: u8 = 0x1d;
pub const RENAME: u8 = 0x1A;
pub const REQUEST_INFO: u8 = 0x30;
pub const FEATURE_FLAGS: u8 = 0x4D;
pub const CONV_AWARENESS_LVL: u8 = 0x4B;

} // verus!
