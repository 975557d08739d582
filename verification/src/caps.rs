//! AirPods models and what each of them can do.

use vstd::prelude::*;

verus! {

#[derive(Clone, Copy, Debug, PartialEq, Eq, Structural)]
pub enum Model {
    Gen1,
    Gen2,
    Gen3,
    Gen4,
    Gen4Anc,
    Pro,
    Pro2,
    Pro2UsbC,
    Pro3,
    Max,
    MaxUsbC,
    Max2,
    Unknown,
}

/// The model a Bluetooth product code names.
pub open spec fn model_of_code(code: u16) -> Model {
    if code == 0x2002 {
        Model::Gen1
    } else if code == 0x200F {
        Model::Gen2
    } else if code == 0x2013 {
        Model::Gen3
    } else if code == 0x201B {
        Model::Gen4Anc
    } else if code == 0x200E {
        Model::Pro
    } else if code == 0x2014 {
        Model::Pro2
    } else if code == 0x2024 {
        Model::Pro2UsbC
    } else if code == 0x2027 {
        Model::Pro3
    } else if code == 0x200A {
        Model::Max
    } else if code == 0x201F {
        Model::MaxUsbC
    } else if code == 0x202D {
        Model::Max2
    } else {
        Model::Unknown
    }
}

/// Feature matrix of one model.
#[derive(Clone, Copy, Debug, PartialEq, Eq, Structural)]
pub struct Capabilities {
    pub model: Model,
    pub has_anc: bool,
    pub has_transparency: bool,
    pub has_adaptive: bool,
    pub has_conv_awareness: bool,
    pub has_case_battery: bool,
    pub has_in_ear_detection: bool,
    pub has_ear_detection_setting: bool,
    pub has_loud_sound_reduction: bool,
    pub has_spatial_audio: bool,
    pub has_press_volume: bool,
    pub has_press_and_hold: bool,
    pub has_mic_selection: bool,
    pub has_rename: bool,
    pub has_tone_on_press: bool,
}

impl Model {
    /// Bluetooth Modalias product code → model. 0x2024 (Pro 2 USB-C) is
    /// hardware-verified; the rest cross-referenced against public PID
    /// tables. AirPods 4 (non-ANC) has no known code and is not mapped.
    pub fn from_code(code: u16) -> (m: Model)
        ensures
            m == model_of_code(code),
    {
        match code {
            0x2002 => Model::Gen1,
            0x200F => Model::Gen2,
            0x2013 => Model::Gen3,
            0x201B => Model::Gen4Anc,
            0x200E => Model::Pro,
            0x2014 => Model::Pro2,
            0x2024 => Model::Pro2UsbC,
            0x2027 => Model::Pro3,
            0x200A => Model::Max,
            0x201F => Model::MaxUsbC,
            0x202D => Model::Max2,
            _ => Model::Unknown,
        }
    }

    pub open spec fn title(self) -> Seq<char> {
        match self {
            Model::Gen1 => "AirPods (1st gen)"@,
            Model::Gen2 => "AirPods (2nd gen)"@,
            Model::Gen3 => "AirPods (3rd gen)"@,
            Model::Gen4 => "AirPods 4"@,
            Model::Gen4Anc => "AirPods 4 (ANC)"@,
            Model::Pro => "AirPods Pro"@,
            Model::Pro2 => "AirPods Pro (2nd gen)"@,
            Model::Pro2UsbC => "AirPods Pro (2nd gen, USB-C)"@,
            Model::Pro3 => "AirPods Pro (3rd gen)"@,
            Model::Max => "AirPods Max"@,
            Model::MaxUsbC => "AirPods Max (USB-C)"@,
            Model::Max2 => "AirPods Max (2nd gen)"@,
            Model::Unknown => "AirPods (unknown model)"@,
        }
    }

    pub fn label(self) -> (r: &'static str)
        ensures
            r@ == self.title(),
    {
        match self {
            Model::Gen1 => "AirPods (1st gen)",
            Model::Gen2 => "AirPods (2nd gen)",
            Model::Gen3 => "AirPods (3rd gen)",
            Model::Gen4 => "AirPods 4",
            Model::Gen4Anc => "AirPods 4 (ANC)",
            Model::Pro => "AirPods Pro",
            Model::Pro2 => "AirPods Pro (2nd gen)",
            Model::Pro2UsbC => "AirPods Pro (2nd gen, USB-C)",
            Model::Pro3 => "AirPods Pro (3rd gen)",
            Model::Max => "AirPods Max",
            Model::MaxUsbC => "AirPods Max (USB-C)",
            Model::Max2 => "AirPods Max (2nd gen)",
            Model::Unknown => "AirPods (unknown model)",
        }
    }

    /// The feature matrix of `self`.
    pub open spec fn caps(self) -> Capabilities {
        match self {
            Model::Gen1 | Model::Gen2 | Model::Gen3 | Model::Gen4 => Capabilities {
                model: self,
                has_anc: false,
                has_transparency: false,
                has_adaptive: false,
                has_conv_awareness: false,
                has_case_battery: true,
                has_in_ear_detection: true,
                has_ear_detection_setting: true,
                has_loud_sound_reduction: false,
                has_spatial_audio: self == Model::Gen3 || self == Model::Gen4,
                has_press_volume: false,
                has_press_and_hold: false,
                has_mic_selection: true,
                has_rename: true,
                has_tone_on_press: false,
            },
            Model::Gen4Anc => Capabilities {
                model: self,
                has_anc: true,
                has_transparency: true,
                has_adaptive: true,
                has_conv_awareness: true,
                has_case_battery: true,
                has_in_ear_detection: true,
                has_ear_detection_setting: true,
                has_loud_sound_reduction: true,
                has_spatial_audio: true,
                has_press_volume: false,
                has_press_and_hold: true,
                has_mic_selection: true,
                has_rename: true,
                has_tone_on_press: true,
            },
            Model::Pro => Capabilities {
                model: self,
                has_anc: true,
                has_transparency: true,
                has_adaptive: false,
                has_conv_awareness: false,
                has_case_battery: true,
                has_in_ear_detection: true,
                has_ear_detection_setting: true,
                has_loud_sound_reduction: false,
                has_spatial_audio: true,
                has_press_volume: false,
                has_press_and_hold: true,
                has_mic_selection: true,
                has_rename: true,
                has_tone_on_press: true,
            },
            Model::Pro2 | Model::Pro2UsbC | Model::Pro3 => Capabilities {
                model: self,
                has_anc: true,
                has_transparency: true,
                has_adaptive: true,
                has_conv_awareness: true,
                has_case_battery: true,
                has_in_ear_detection: true,
                has_ear_detection_setting: true,
                has_loud_sound_reduction: true,
                has_spatial_audio: true,
                has_press_volume: true,
                has_press_and_hold: true,
                has_mic_selection: true,
                has_rename: true,
                has_tone_on_press: true,
            },
            Model::Max | Model::MaxUsbC | Model::Max2 => Capabilities {
                model: self,
                has_anc: true,
                has_transparency: true,
                has_adaptive: false,
                has_conv_awareness: false,
                has_case_battery: false,
                has_in_ear_detection: false,
                has_ear_detection_setting: false,
                has_loud_sound_reduction: true,
                has_spatial_audio: true,
                has_press_volume: false,
                has_press_and_hold: true,
                has_mic_selection: false,
                has_rename: true,
                has_tone_on_press: false,
            },
            Model::Unknown => Capabilities::conservative_of(self),
        }
    }

    pub fn capabilities(self) -> (c: Capabilities)
        ensures
            c == self.caps(),
    {
        match self {
            Model::Gen1 | Model::Gen2 | Model::Gen3 | Model::Gen4 => Capabilities {
                model: self,
                has_anc: false,
                has_transparency: false,
                has_adaptive: false,
                has_conv_awareness: false,
                has_case_battery: true,
                has_in_ear_detection: true,
                has_ear_detection_setting: true,
                has_loud_sound_reduction: false,
                has_spatial_audio: matches!(self, Model::Gen3 | Model::Gen4),
                has_press_volume: false,
                has_press_and_hold: false,
                has_mic_selection: true,
                has_rename: true,
                has_tone_on_press: false,
            },
            Model::Gen4Anc => Capabilities {
                model: self,
                has_anc: true,
                has_transparency: true,
                has_adaptive: true,
                has_conv_awareness: true,
                has_case_battery: true,
                has_in_ear_detection: true,
                has_ear_detection_setting: true,
                has_loud_sound_reduction: true,
                has_spatial_audio: true,
                has_press_volume: false,
                has_press_and_hold: true,
                has_mic_selection: true,
                has_rename: true,
                has_tone_on_press: true,
            },
            Model::Pro => Capabilities {
                model: self,
                has_anc: true,
                has_transparency: true,
                has_adaptive: false,
                has_conv_awareness: false,
                has_case_battery: true,
                has_in_ear_detection: true,
                has_ear_detection_setting: true,
                has_loud_sound_reduction: false,
                has_spatial_audio: true,
                has_press_volume: false,
                has_press_and_hold: true,
                has_mic_selection: true,
                has_rename: true,
                has_tone_on_press: true,
            },
            Model::Pro2 | Model::Pro2UsbC | Model::Pro3 => Capabilities {
                model: self,
                has_anc: true,
                has_transparency: true,
                has_adaptive: true,
                has_conv_awareness: true,
                has_case_battery: true,
                has_in_ear_detection: true,
                has_ear_detection_setting: true,
                has_loud_sound_reduction: true,
                has_spatial_audio: true,
                has_press_volume: true,
                has_press_and_hold: true,
                has_mic_selection: true,
                has_rename: true,
                has_tone_on_press: true,
            },
            Model::Max | Model::MaxUsbC | Model::Max2 => Capabilities {
                model: self,
                has_anc: true,
                has_transparency: true,
                has_adaptive: false,
                has_conv_awareness: false,
                has_case_battery: false,
                has_in_ear_detection: false,
                has_ear_detection_setting: false,
                has_loud_sound_reduction: true,
                has_spatial_audio: true,
                has_press_volume: false,
                has_press_and_hold: true,
                has_mic_selection: false,
                has_rename: true,
                has_tone_on_press: false,
            },
            Model::Unknown => Capabilities::conservative(self),
        }
    }
}

impl Capabilities {
    /// Only what every AirPods can do: case battery and rename.
    pub open spec fn conservative_of(model: Model) -> Capabilities {
        Capabilities {
            model,
            has_anc: false,
            has_transparency: false,
            has_adaptive: false,
            has_conv_awareness: false,
            has_case_battery: true,
            has_in_ear_detection: false,
            has_ear_detection_setting: false,
            has_loud_sound_reduction: false,
            has_spatial_audio: false,
            has_press_volume: false,
            has_press_and_hold: false,
            has_mic_selection: false,
            has_rename: true,
            has_tone_on_press: false,
        }
    }

    pub fn conservative(model: Model) -> (c: Capabilities)
        ensures
            c == Capabilities::conservative_of(model),
    {
        Capabilities {
            model,
            has_anc: false,
            has_transparency: false,
            has_adaptive: false,
            has_conv_awareness: false,
            has_case_battery: true,
            has_in_ear_detection: false,
            has_ear_detection_setting: false,
            has_loud_sound_reduction: false,
            has_spatial_audio: false,
            has_press_volume: false,
            has_press_and_hold: false,
            has_mic_selection: false,
            has_rename: true,
            has_tone_on_press: false,
        }
    }
}

impl Default for Capabilities {
    fn default() -> (c: Capabilities)
        ensures
            c == Capabilities::conservative_of(Model::Unknown),
    {
        Capabilities::conservative(Model::Unknown)
    }
}

/// Every matrix names the model it was built for, and a model that can
/// switch to Adaptive can also switch to noise cancellation and
/// transparency.
pub proof fn lemma_caps_consistent(m: Model)
    ensures
        m.caps().model == m,
        m.caps().has_adaptive ==> m.caps().has_anc && m.caps().has_transparency,
        m.caps().has_conv_awareness ==> m.caps().has_anc,
        m.caps().has_rename,
{
}

/// The noise-cancelling products: every Pro, every Max, and AirPods 4
/// with ANC.
pub open spec fn cancels_noise(m: Model) -> bool {
    m is Gen4Anc || m is Pro || m is Pro2 || m is Pro2UsbC || m is Pro3 || m is Max || m is MaxUsbC
        || m is Max2
}

/// Noise control follows the product: a model offers noise cancellation,
/// and transparency with it, exactly when it is one of the
/// noise-cancelling products; so the first AirPods Pro (product code
/// 0x200E) can switch to either.
pub proof fn lemma_noise_control_follows_product(m: Model)
    ensures
        m.caps().has_anc == cancels_noise(m),
        m.caps().has_transparency == cancels_noise(m),
        model_of_code(0x200E).caps().has_anc && model_of_code(0x200E).caps().has_transparency,
{
}

/// The models with Adaptive audio: AirPods 4 with ANC and the second and
/// third Pro generations.
pub open spec fn has_adaptive_audio(m: Model) -> bool {
    m is Gen4Anc || m is Pro2 || m is Pro2UsbC || m is Pro3
}

/// The over-ear models: the Max family.
pub open spec fn over_ear(m: Model) -> bool {
    m is Max || m is MaxUsbC || m is Max2
}

/// The rest of the matrix follows the product too: Adaptive mode and
/// conversation awareness come exactly with the Adaptive-audio models;
/// the over-ear Max family has no charging case and no in-ear detection,
/// which every other known model has; and an unknown model is offered no
/// noise control at all.
pub proof fn lemma_features_follow_product(m: Model)
    ensures
        m.caps().has_adaptive == has_adaptive_audio(m),
        m.caps().has_conv_awareness == has_adaptive_audio(m),
        m.caps().has_case_battery == !over_ear(m),
        m.caps().has_in_ear_detection == (!over_ear(m) && m != Model::Unknown),
        m == Model::Unknown ==> !m.caps().has_anc && !m.caps().has_transparency
            && !m.caps().has_adaptive,
{
}

/// A code maps to a known model exactly when it is one of the
/// listed product codes, and each known model has one code.
pub proof fn lemma_code_model_injective(a: u16, b: u16)
    requires
        model_of_code(a) != Model::Unknown,
        model_of_code(a) == model_of_code(b),
    ensures
        a == b,
{
}

} // verus!
