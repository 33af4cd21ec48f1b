//! The plain data the runtime stores and forwards: decoded clips, playback
//! parameters and listener frames (real values carried as bit patterns),
//! the runtime configuration, and the status snapshot readers poll.

use vstd::prelude::*;

verus! {

use crate::modes::{AudioRenderMode, DistanceModel};

/// Caller-chosen identifier for one loaded clip; zero is reserved as a sentinel.
pub type BufferKey = u32;

/// IEEE-754 single-precision bit pattern of 0.0.
pub const F32_ZERO_BITS: u32 = 0;

/// IEEE-754 single-precision bit pattern of 1.0.
pub const F32_ONE_BITS: u32 = 0x3F80_0000;

/// IEEE-754 single-precision bit pattern of -1.0.
pub const F32_NEG_ONE_BITS: u32 = 0xBF80_0000;

/// A 3-vector carried as the bit patterns of its single-precision components.
/// The runtime only stores and forwards these; all real-valued work happens
/// at the native boundary.
#[derive(Debug, Copy, Clone, Eq, PartialEq, Structural)]
pub struct Vec3Bits {
    pub x: u32,
    pub y: u32,
    pub z: u32,
}

/// Where the listener sits and faces; forward and up are re-normalized by the
/// backend layer before use, so a degenerate frame cannot corrupt orientation.
#[derive(Debug, Copy, Clone, Eq, PartialEq, Structural)]
pub struct ListenerFrame {
    pub position: Vec3Bits,
    pub forward: Vec3Bits,
    pub up: Vec3Bits,
    pub velocity: Vec3Bits,
}

impl Default for ListenerFrame {
    /// At the origin, facing -Z with +Y up, at rest.
    fn default() -> (r: Self)
        ensures
            r.position == (Vec3Bits { x: F32_ZERO_BITS, y: F32_ZERO_BITS, z: F32_ZERO_BITS }),
            r.forward == (Vec3Bits { x: F32_ZERO_BITS, y: F32_ZERO_BITS, z: F32_NEG_ONE_BITS }),
            r.up == (Vec3Bits { x: F32_ZERO_BITS, y: F32_ONE_BITS, z: F32_ZERO_BITS }),
            r.velocity == (Vec3Bits { x: F32_ZERO_BITS, y: F32_ZERO_BITS, z: F32_ZERO_BITS }),
    {
        ListenerFrame {
            position: Vec3Bits { x: F32_ZERO_BITS, y: F32_ZERO_BITS, z: F32_ZERO_BITS },
            forward: Vec3Bits { x: F32_ZERO_BITS, y: F32_ZERO_BITS, z: F32_NEG_ONE_BITS },
            up: Vec3Bits { x: F32_ZERO_BITS, y: F32_ONE_BITS, z: F32_ZERO_BITS },
            velocity: Vec3Bits { x: F32_ZERO_BITS, y: F32_ZERO_BITS, z: F32_ZERO_BITS },
        }
    }
}

/// Position, gain and pitch for one playback request, gain and pitch as
/// single-precision bit patterns.
#[derive(Debug, Copy, Clone, Eq, PartialEq, Structural)]
pub struct PlayOneShotParams {
    pub position: Vec3Bits,
    pub gain_bits: u32,
    pub pitch_bits: u32,
}

impl Default for PlayOneShotParams {
    /// At the origin, unit gain, unit pitch.
    fn default() -> (r: Self)
        ensures
            r.position == (Vec3Bits { x: F32_ZERO_BITS, y: F32_ZERO_BITS, z: F32_ZERO_BITS }),
            r.gain_bits == F32_ONE_BITS,
            r.pitch_bits == F32_ONE_BITS,
    {
        PlayOneShotParams {
            position: Vec3Bits { x: F32_ZERO_BITS, y: F32_ZERO_BITS, z: F32_ZERO_BITS },
            gain_bits: F32_ONE_BITS,
            pitch_bits: F32_ONE_BITS,
        }
    }
}

/// One decoded clip: mono 16-bit samples at a source rate.
#[derive(Debug, Clone)]
pub struct DecodedAudioMono16 {
    pub sample_rate_hz: u32,
    pub samples: Vec<i16>,
}

/// Abstract value of a decoded clip.
#[verifier::ext_equal]
pub ghost struct AudioView {
    pub sample_rate_hz: u32,
    pub samples: Seq<i16>,
}

impl View for DecodedAudioMono16 {
    type V = AudioView;

    open spec fn view(&self) -> AudioView {
        AudioView { sample_rate_hz: self.sample_rate_hz, samples: self.samples@ }
    }
}

/// Raw bytes of an audio asset, before decoding.
#[derive(Debug, Clone)]
pub struct OpenalAudioBytes {
    pub bytes: Vec<u8>,
}

/// What one runtime instance is constructed with.
#[derive(Debug, Clone)]
pub struct AudioRuntimeConfig {
    pub initial_render_mode: AudioRenderMode,
    pub distance_model: DistanceModel,
    pub max_sources: usize,
    pub preferred_device: Option<String>,
}

impl Default for AudioRuntimeConfig {
    fn default() -> (r: Self)
        ensures
            r.initial_render_mode == AudioRenderMode::Auto,
            r.distance_model == DistanceModel::InverseClamped,
            r.max_sources == 64,
            r.preferred_device is None,
    {
        AudioRuntimeConfig {
            initial_render_mode: AudioRenderMode::Auto,
            distance_model: DistanceModel::InverseClamped,
            max_sources: 64,
            preferred_device: None,
        }
    }
}

/// Diagnostics read once per backend construction: whether HRTF is active and
/// which output layout was negotiated.
#[derive(Debug, Clone)]
pub struct EngineDiag {
    pub hrtf_active: bool,
    pub output_mode: Option<String>,
    pub output_mode_raw: Option<i32>,
}

/// The snapshot of runtime state that readers poll.
#[derive(Debug, Clone, PartialEq)]
pub struct AudioRuntimeStatus {
    pub library_loaded: bool,
    pub device_open: bool,
    pub context_created: bool,
    pub render_mode: AudioRenderMode,
    pub output_mode: Option<String>,
    pub output_mode_raw: Option<i32>,
    pub distance_model: DistanceModel,
    pub hrtf_active: bool,
    pub muted: bool,
    pub loaded_buffers: usize,
    pub active_sources: usize,
    pub last_error: Option<String>,
}

/// Abstract value of a status snapshot.
#[verifier::ext_equal]
pub ghost struct StatusView {
    pub library_loaded: bool,
    pub device_open: bool,
    pub context_created: bool,
    pub render_mode: AudioRenderMode,
    pub output_mode: Option<Seq<char>>,
    pub output_mode_raw: Option<i32>,
    pub distance_model: DistanceModel,
    pub hrtf_active: bool,
    pub muted: bool,
    pub loaded_buffers: usize,
    pub active_sources: usize,
    pub last_error: Option<Seq<char>>,
}

/// The view of an optional owned string.
pub open spec fn opt_string_view(s: Option<String>) -> Option<Seq<char>> {
    match s {
        Some(v) => Some(v@),
        None => None,
    }
}

impl View for AudioRuntimeStatus {
    type V = StatusView;

    open spec fn view(&self) -> StatusView {
        StatusView {
            library_loaded: self.library_loaded,
            device_open: self.device_open,
            context_created: self.context_created,
            render_mode: self.render_mode,
            output_mode: opt_string_view(self.output_mode),
            output_mode_raw: self.output_mode_raw,
            distance_model: self.distance_model,
            hrtf_active: self.hrtf_active,
            muted: self.muted,
            loaded_buffers: self.loaded_buffers,
            active_sources: self.active_sources,
            last_error: opt_string_view(self.last_error),
        }
    }
}

/// A copy of an optional string, sharing its view.
pub fn clone_opt_string(s: &Option<String>) -> (r: Option<String>)
    ensures
        opt_string_view(r) == opt_string_view(*s),
{
    match s {
        Some(v) => Some(v.clone()),
        None => None,
    }
}

impl AudioRuntimeStatus {
    /// The snapshot published before the worker has touched the backend.
    pub fn initial(render_mode: AudioRenderMode, distance_model: DistanceModel) -> (r: Self)
        ensures
            r@ == (StatusView {
                library_loaded: false,
                device_open: false,
                context_created: false,
                render_mode,
                output_mode: None,
                output_mode_raw: None,
                distance_model,
                hrtf_active: false,
                muted: false,
                loaded_buffers: 0,
                active_sources: 0,
                last_error: None,
            }),
    {
        AudioRuntimeStatus {
            library_loaded: false,
            device_open: false,
            context_created: false,
            render_mode,
            output_mode: None,
            output_mode_raw: None,
            distance_model,
            hrtf_active: false,
            muted: false,
            loaded_buffers: 0,
            active_sources: 0,
            last_error: None,
        }
    }

    /// A copy of the snapshot, equal in value.
    pub fn snapshot(&self) -> (r: Self)
        ensures
            r@ == self@,
    {
        AudioRuntimeStatus {
            library_loaded: self.library_loaded,
            device_open: self.device_open,
            context_created: self.context_created,
            render_mode: self.render_mode,
            output_mode: clone_opt_string(&self.output_mode),
            output_mode_raw: self.output_mode_raw,
            distance_model: self.distance_model,
            hrtf_active: self.hrtf_active,
            muted: self.muted,
            loaded_buffers: self.loaded_buffers,
            active_sources: self.active_sources,
            last_error: clone_opt_string(&self.last_error),
        }
    }
}

} // verus!
