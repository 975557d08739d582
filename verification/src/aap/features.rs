use vstd::prelude::*;

verus! {

pub const SPATIAL_AUDIO_FIXED: u32 = 1;
pub const SPATIAL_AUDIO_HEAD_TRACKED: u32 = 2;
pub const EAR_DETECTION: u32 = 4;
pub const CONV_AWARENESS: u32 = 8;
pub const LOUD_SOUND_REDUCTION: u32 = 16;
pub const TONE_ON_PRESS: u32 = 32;

} // verus!
