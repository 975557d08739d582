use vstd::prelude::*;

verus! {

/// 0=auto, 1=right, 2=left
pub const MIC_MODE: u8 = 0x01;
/// 1=enabled, 2=disabled
pub const EAR_DETECTION: u8 = 0x0a;
/// 1=Off, 2=NC, 3=Transparency, 4=Adaptive
pub const NOISE_CONTROL: u8 = 0x0d;
/// 1=enabled, 2=disabled
pub const ONE_BUD_ANC: u8 = 0x1b;
/// 0..100
pub const CHIME_VOLUME: u8 = 0x1f;
/// 1=enabled, 2=disabled
pub const CONV_AWARE: u8 = 0x28;
/// 0..100
pub const AUTO_ANC_LEVEL: u8 = 0x2e;

} // verus!
