//! The two caller-facing configuration enums and their keyword forms.

use vstd::prelude::*;

verus! {

use vstd::string::StringSliceAdditionalSpecFns;
use crate::text::{normal_bytes, normalize_bytes, token_is};

/// How the backend renders the final mix.
#[derive(Debug, Copy, Clone, Eq, PartialEq, Structural)]
pub enum AudioRenderMode {
    Auto,
    StereoClean,
    HeadphonesHrtf,
    SurroundAuto,
}

impl Default for AudioRenderMode {
    fn default() -> (r: Self)
        ensures
            r == AudioRenderMode::Auto,
    {
        AudioRenderMode::Auto
    }
}

/// The keyword that `AudioRenderMode::parse` accepts maps to, canonical form first.
pub open spec fn parse_render_mode(s: Seq<u8>) -> Option<AudioRenderMode> {
    let t = normal_bytes(s);
    if t == "auto".spec_bytes() {
        Some(AudioRenderMode::Auto)
    } else if t == "stereo".spec_bytes() || t == "stereo-clean".spec_bytes() {
        Some(AudioRenderMode::StereoClean)
    } else if t == "hrtf".spec_bytes() || t == "headphones".spec_bytes() {
        Some(AudioRenderMode::HeadphonesHrtf)
    } else if t == "surround".spec_bytes() || t == "surround-auto".spec_bytes() {
        Some(AudioRenderMode::SurroundAuto)
    } else {
        None
    }
}

impl AudioRenderMode {
    /// The canonical keyword for this mode.
    pub fn as_str(self) -> (r: &'static str)
        ensures
            (match self {
                AudioRenderMode::Auto => r@ == "auto"@,
                AudioRenderMode::StereoClean => r@ == "stereo"@,
                AudioRenderMode::HeadphonesHrtf => r@ == "hrtf"@,
                AudioRenderMode::SurroundAuto => r@ == "surround"@,
            }),
    {
        match self {
            AudioRenderMode::Auto => "auto",
            AudioRenderMode::StereoClean => "stereo",
            AudioRenderMode::HeadphonesHrtf => "hrtf",
            AudioRenderMode::SurroundAuto => "surround",
        }
    }

    /// Reads a mode keyword, ignoring case and surrounding ASCII whitespace.
    pub fn parse(value: &str) -> (r: Option<Self>)
        ensures
            r == parse_render_mode(value.spec_bytes()),
    {
        let t = normalize_bytes(value);
        if token_is(&t, "auto") {
            Some(AudioRenderMode::Auto)
        } else if token_is(&t, "stereo") || token_is(&t, "stereo-clean") {
            Some(AudioRenderMode::StereoClean)
        } else if token_is(&t, "hrtf") || token_is(&t, "headphones") {
            Some(AudioRenderMode::HeadphonesHrtf)
        } else if token_is(&t, "surround") || token_is(&t, "surround-auto") {
            Some(AudioRenderMode::SurroundAuto)
        } else {
            None
        }
    }
}

/// How source gain falls off with distance from the listener.
#[derive(Debug, Copy, Clone, Eq, PartialEq, Structural)]
pub enum DistanceModel {
    Off,
    Inverse,
    InverseClamped,
    Linear,
    LinearClamped,
    Exponent,
    ExponentClamped,
}

impl Default for DistanceModel {
    fn default() -> (r: Self)
        ensures
            r == DistanceModel::Off,
    {
        DistanceModel::Off
    }
}

/// The keyword that `DistanceModel::parse` accepts maps to, canonical form first.
pub open spec fn parse_distance_model(s: Seq<u8>) -> Option<DistanceModel> {
    let t = normal_bytes(s);
    if t == "none".spec_bytes() || t == "off".spec_bytes() {
        Some(DistanceModel::Off)
    } else if t == "inverse".spec_bytes() {
        Some(DistanceModel::Inverse)
    } else if t == "inverse-clamp".spec_bytes() || t == "inverse-clamped".spec_bytes() {
        Some(DistanceModel::InverseClamped)
    } else if t == "linear".spec_bytes() {
        Some(DistanceModel::Linear)
    } else if t == "linear-clamp".spec_bytes() || t == "linear-clamped".spec_bytes() {
        Some(DistanceModel::LinearClamped)
    } else if t == "exponent".spec_bytes() {
        Some(DistanceModel::Exponent)
    } else if t == "exponent-clamp".spec_bytes() || t == "exponent-clamped".spec_bytes() {
        Some(DistanceModel::ExponentClamped)
    } else {
        None
    }
}

impl DistanceModel {
    /// The canonical keyword for this model.
    pub fn as_str(self) -> (r: &'static str)
        ensures
            (match self {
                DistanceModel::Off => r@ == "none"@,
                DistanceModel::Inverse => r@ == "inverse"@,
                DistanceModel::InverseClamped => r@ == "inverse-clamp"@,
                DistanceModel::Linear => r@ == "linear"@,
                DistanceModel::LinearClamped => r@ == "linear-clamp"@,
                DistanceModel::Exponent => r@ == "exponent"@,
                DistanceModel::ExponentClamped => r@ == "exponent-clamp"@,
            }),
    {
        match self {
            DistanceModel::Off => "none",
            DistanceModel::Inverse => "inverse",
            DistanceModel::InverseClamped => "inverse-clamp",
            DistanceModel::Linear => "linear",
            DistanceModel::LinearClamped => "linear-clamp",
            DistanceModel::Exponent => "exponent",
            DistanceModel::ExponentClamped => "exponent-clamp",
        }
    }

    /// Reads a model keyword, ignoring case and surrounding ASCII whitespace.
    pub fn parse(value: &str) -> (r: Option<Self>)
        ensures
            r == parse_distance_model(value.spec_bytes()),
    {
        let t = normalize_bytes(value);
        if token_is(&t, "none") || token_is(&t, "off") {
            Some(DistanceModel::Off)
        } else if token_is(&t, "inverse") {
            Some(DistanceModel::Inverse)
        } else if token_is(&t, "inverse-clamp") || token_is(&t, "inverse-clamped") {
            Some(DistanceModel::InverseClamped)
        } else if token_is(&t, "linear") {
            Some(DistanceModel::Linear)
        } else if token_is(&t, "linear-clamp") || token_is(&t, "linear-clamped") {
            Some(DistanceModel::LinearClamped)
        } else if token_is(&t, "exponent") {
            Some(DistanceModel::Exponent)
        } else if token_is(&t, "exponent-clamp") || token_is(&t, "exponent-clamped") {
            Some(DistanceModel::ExponentClamped)
        } else {
            None
        }
    }
}

} // verus!
