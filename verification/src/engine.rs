//! Bookkeeping for one live backend handle: which buffers and voices exist
//! natively and under which handles, what a request is allowed to do, and
//! what the backend must be asked to do for it. The native calls themselves
//! happen outside; this side hands out plans and records outcomes.

use vstd::prelude::*;

verus! {

use crate::data::{AudioView, BufferKey, DecodedAudioMono16, EngineDiag, opt_string_view};
use crate::errors::OpenalError;
use crate::keymap::{assoc_at, assoc_distinct, assoc_has, KeyMap};
use crate::modes::DistanceModel;

/// Abstract value of a live backend handle's bookkeeping: which buffers and
/// voices exist natively, under which handles, and the cached diagnostics.
#[verifier::ext_equal]
pub ghost struct EngineView {
    /// Buffer key to native buffer handle, in creation order.
    pub buffers: Seq<(u32, u32)>,
    /// Native handles of live one-shot voices.
    pub sources: Seq<u32>,
    /// The dedicated loop voice: its buffer key and native handle.
    pub loop_source: Option<(u32, u32)>,
    /// Size of the voice pool, loop voice included.
    pub max_sources: usize,
    pub hrtf_active: bool,
    pub output_mode: Option<Seq<char>>,
    pub output_mode_raw: Option<i32>,
    pub distance_model: DistanceModel,
}

/// How many voice slots are taken: one-shots plus the loop voice.
pub open spec fn engine_occupied(e: EngineView) -> int {
    e.sources.len() + if e.loop_source is Some {
        1int
    } else {
        0int
    }
}

/// Bookkeeping invariant: buffer keys are unique and the voice pool never
/// exceeds its size.
pub open spec fn engine_wf(e: EngineView) -> bool {
    &&& assoc_distinct(e.buffers)
    &&& engine_occupied(e) <= e.max_sources
}

/// What `create_buffer_check` decides for a key and clip.
pub open spec fn spec_create_buffer_check(e: EngineView, key: u32, data: AudioView) -> Result<
    (i32, i32),
    OpenalError,
> {
    if assoc_has(e.buffers, key) {
        Err(OpenalError::BufferKeyExists(key))
    } else if data.samples.len() * 2 > i32::MAX {
        Err(OpenalError::BufferDataTooLarge)
    } else if data.sample_rate_hz > i32::MAX {
        Err(OpenalError::SampleRateTooLarge)
    } else {
        Ok(((data.samples.len() * 2) as i32, data.sample_rate_hz as i32))
    }
}

/// What `play_check` decides for a one-shot request.
pub open spec fn spec_play_check(e: EngineView, key: u32) -> Result<u32, OpenalError> {
    if engine_occupied(e) >= e.max_sources {
        Err(OpenalError::SourceLimitReached)
    } else if !assoc_has(e.buffers, key) {
        Err(OpenalError::BufferKeyMissing(key))
    } else {
        Ok(assoc_at(e.buffers, key))
    }
}

/// What the backend must be asked to do for a loop request.
#[derive(Debug, Copy, Clone, PartialEq, Eq)]
pub enum LoopPlan {
    /// Nothing to do natively; record the error.
    Reject { error: OpenalError },
    /// The loop voice already plays this key: rebind and restart it in place.
    UpdateInPlace { source: u32, buffer: u32 },
    /// Stop and delete the old loop voice, then reject: the pool is full.
    StopThenReject { old_source: u32, error: OpenalError },
    /// Stop and delete the old loop voice, then start a fresh one on `buffer`.
    StopThenStart { old_source: u32, buffer: u32 },
    /// No loop voice exists: start a fresh one on `buffer`.
    Start { buffer: u32 },
}

/// What `loop_plan` decides. The pool check counts one-shots only, because a
/// replaced loop voice is stopped before the fresh one is started.
pub open spec fn spec_loop_plan(e: EngineView, key: u32) -> LoopPlan {
    if !assoc_has(e.buffers, key) {
        LoopPlan::Reject { error: OpenalError::BufferKeyMissing(key) }
    } else {
        let buffer = assoc_at(e.buffers, key);
        match e.loop_source {
            Some(ls) => {
                if ls.0 == key {
                    LoopPlan::UpdateInPlace { source: ls.1, buffer }
                } else if e.sources.len() >= e.max_sources {
                    LoopPlan::StopThenReject {
                        old_source: ls.1,
                        error: OpenalError::SourceLimitReached,
                    }
                } else {
                    LoopPlan::StopThenStart { old_source: ls.1, buffer }
                }
            },
            None => {
                if e.sources.len() >= e.max_sources {
                    LoopPlan::Reject { error: OpenalError::SourceLimitReached }
                } else {
                    LoopPlan::Start { buffer }
                }
            },
        }
    }
}

/// The one-shot voices kept after a reclamation pass: those whose flag in
/// `stopped` is false, in their original order.
pub open spec fn keep_running(s: Seq<u32>, stopped: Seq<bool>) -> Seq<u32>
    decreases s.len(),
{
    if s.len() == 0 {
        s
    } else {
        let rest = keep_running(s.drop_last(), stopped.drop_last());
        if stopped[s.len() - 1] {
            rest
        } else {
            rest.push(s.last())
        }
    }
}

pub proof fn lemma_keep_running_len(s: Seq<u32>, stopped: Seq<bool>)
    ensures
        keep_running(s, stopped).len() <= s.len(),
    decreases s.len(),
{
    if s.len() > 0 {
        lemma_keep_running_len(s.drop_last(), stopped.drop_last());
    }
}

/// Bookkeeping for one live backend handle. Native handles are opaque `u32`s
/// handed in by the caller that owns the native side; this type decides and
/// records, it never calls the backend itself.
pub struct EngineModel {
    buffers: KeyMap<u32>,
    sources: Vec<u32>,
    loop_source: Option<(BufferKey, u32)>,
    max_sources: usize,
    hrtf_active: bool,
    output_mode: Option<String>,
    output_mode_raw: Option<i32>,
    distance_model: DistanceModel,
}

impl View for EngineModel {
    type V = EngineView;

    closed spec fn view(&self) -> EngineView {
        EngineView {
            buffers: self.buffers.seq(),
            sources: self.sources@,
            loop_source: self.loop_source,
            max_sources: self.max_sources,
            hrtf_active: self.hrtf_active,
            output_mode: opt_string_view(self.output_mode),
            output_mode_raw: self.output_mode_raw,
            distance_model: self.distance_model,
        }
    }
}

impl EngineModel {
    /// A fresh handle: no buffers, no voices, diagnostics as constructed.
    pub fn new(diag: EngineDiag, max_sources: usize, distance_model: DistanceModel) -> (r: Self)
        ensures
            r@ == (EngineView {
                buffers: Seq::empty(),
                sources: Seq::empty(),
                loop_source: None,
                max_sources,
                hrtf_active: diag.hrtf_active,
                output_mode: opt_string_view(diag.output_mode),
                output_mode_raw: diag.output_mode_raw,
                distance_model,
            }),
            engine_wf(r@),
    {
        let r = EngineModel {
            buffers: KeyMap::new(),
            sources: Vec::new(),
            loop_source: None,
            max_sources,
            hrtf_active: diag.hrtf_active,
            output_mode: diag.output_mode,
            output_mode_raw: diag.output_mode_raw,
            distance_model,
        };
        proof {
            assert(r@ =~= (EngineView {
                buffers: Seq::empty(),
                sources: Seq::empty(),
                loop_source: None,
                max_sources,
                hrtf_active: diag.hrtf_active,
                output_mode: opt_string_view(diag.output_mode),
                output_mode_raw: diag.output_mode_raw,
                distance_model,
            }));
        }
        r
    }

    pub fn loaded_buffers(&self) -> (r: usize)
        ensures
            r == self@.buffers.len(),
    {
        self.buffers.len()
    }

    pub fn active_sources(&self) -> (r: usize)
        requires
            engine_wf(self@),
        ensures
            r == engine_occupied(self@),
    {
        let n = self.sources.len();
        if self.loop_source.is_some() {
            n + 1
        } else {
            n
        }
    }

    pub fn hrtf_active(&self) -> (r: bool)
        ensures
            r == self@.hrtf_active,
    {
        self.hrtf_active
    }

    pub fn output_mode(&self) -> (r: &Option<String>)
        ensures
            opt_string_view(*r) == self@.output_mode,
    {
        &self.output_mode
    }

    pub fn output_mode_raw(&self) -> (r: Option<i32>)
        ensures
            r == self@.output_mode_raw,
    {
        self.output_mode_raw
    }

    pub fn distance_model(&self) -> (r: DistanceModel)
        ensures
            r == self@.distance_model,
    {
        self.distance_model
    }

    /// Records that the backend accepted a new distance model.
    pub fn set_distance_model(&mut self, model: DistanceModel)
        ensures
            final(self)@ == (EngineView { distance_model: model, ..old(self)@ }),
    {
        self.distance_model = model;
    }

    /// Whether a key and clip can become a buffer, and the byte length and
    /// rate to upload if so.
    pub fn create_buffer_check(&self, key: u32, data: &DecodedAudioMono16) -> (r: Result<
        (i32, i32),
        OpenalError,
    >)
        ensures
            r == spec_create_buffer_check(self@, key, data@),
    {
        if self.buffers.contains_key(key) {
            return Err(OpenalError::BufferKeyExists(key));
        }
        if data.samples.len() > (i32::MAX / 2) as usize {
            return Err(OpenalError::BufferDataTooLarge);
        }
        if data.sample_rate_hz > i32::MAX as u32 {
            return Err(OpenalError::SampleRateTooLarge);
        }
        Ok(((data.samples.len() * 2) as i32, data.sample_rate_hz as i32))
    }

    /// Records a buffer the backend created under `handle`.
    pub fn record_buffer(&mut self, key: u32, handle: u32)
        requires
            engine_wf(old(self)@),
            !assoc_has(old(self)@.buffers, key),
        ensures
            final(self)@ == (EngineView {
                buffers: old(self)@.buffers.push((key, handle)),
                ..old(self)@
            }),
            engine_wf(final(self)@),
    {
        let replaced = self.buffers.insert(key, handle);
        proof {
            assert(!replaced);
        }
    }

    /// Whether a one-shot may start on `key`, and the buffer handle to bind.
    pub fn play_check(&self, key: u32) -> (r: Result<u32, OpenalError>)
        requires
            engine_wf(self@),
        ensures
            r == spec_play_check(self@, key),
    {
        if self.active_sources() >= self.max_sources {
            return Err(OpenalError::SourceLimitReached);
        }
        match self.buffers.get(key) {
            Some(h) => Ok(*h),
            None => Err(OpenalError::BufferKeyMissing(key)),
        }
    }

    /// Records a one-shot voice the backend started under `handle`.
    pub fn record_one_shot(&mut self, handle: u32)
        requires
            engine_wf(old(self)@),
            engine_occupied(old(self)@) < old(self)@.max_sources,
        ensures
            final(self)@ == (EngineView {
                sources: old(self)@.sources.push(handle),
                ..old(self)@
            }),
            engine_wf(final(self)@),
    {
        self.sources.push(handle);
    }

    /// What the backend must be asked to do for a loop request on `key`.
    pub fn loop_plan(&self, key: u32) -> (r: LoopPlan)
        requires
            engine_wf(self@),
        ensures
            r == spec_loop_plan(self@, key),
    {
        let buffer = match self.buffers.get(key) {
            Some(h) => *h,
            None => {
                return LoopPlan::Reject { error: OpenalError::BufferKeyMissing(key) };
            },
        };
        match self.loop_source {
            Some((k, s)) => {
                if k == key {
                    LoopPlan::UpdateInPlace { source: s, buffer }
                } else if self.sources.len() >= self.max_sources {
                    LoopPlan::StopThenReject {
                        old_source: s,
                        error: OpenalError::SourceLimitReached,
                    }
                } else {
                    LoopPlan::StopThenStart { old_source: s, buffer }
                }
            },
            None => {
                if self.sources.len() >= self.max_sources {
                    LoopPlan::Reject { error: OpenalError::SourceLimitReached }
                } else {
                    LoopPlan::Start { buffer }
                }
            },
        }
    }

    /// Records that the loop voice was stopped and deleted.
    pub fn clear_loop(&mut self)
        ensures
            final(self)@ == (EngineView { loop_source: None, ..old(self)@ }),
    {
        self.loop_source = None;
    }

    /// Records a loop voice the backend started on `key` under `handle`.
    pub fn record_loop(&mut self, key: u32, handle: u32)
        requires
            engine_wf(old(self)@),
            old(self)@.loop_source is None,
            old(self)@.sources.len() < old(self)@.max_sources,
        ensures
            final(self)@ == (EngineView { loop_source: Some((key, handle)), ..old(self)@ }),
            engine_wf(final(self)@),
    {
        self.loop_source = Some((key, handle));
    }

    /// The loop voice's key and handle, if one exists.
    pub fn loop_voice(&self) -> (r: Option<(u32, u32)>)
        ensures
            r == self@.loop_source,
    {
        self.loop_source
    }

    /// A copy of the one-shot voice handles, in order.
    pub fn one_shot_handles(&self) -> (r: Vec<u32>)
        ensures
            r@ == self@.sources,
    {
        let mut r: Vec<u32> = Vec::new();
        let n = self.sources.len();
        let mut i: usize = 0;
        while i < n
            invariant
                i <= n,
                n == self.sources@.len(),
                r@ =~= self.sources@.subrange(0, i as int),
            decreases n - i,
        {
            r.push(self.sources[i]);
            proof {
                assert(r@ =~= self.sources@.subrange(0, i + 1));
            }
            i = i + 1;
        }
        proof {
            assert(r@ =~= self@.sources);
        }
        r
    }

    /// A copy of the native buffer handles, in creation order.
    pub fn buffer_handles(&self) -> (r: Vec<u32>)
        ensures
            r@ == self@.buffers.map_values(|p: (u32, u32)| p.1),
    {
        let mut r: Vec<u32> = Vec::new();
        let n = self.buffers.len();
        let mut i: usize = 0;
        while i < n
            invariant
                i <= n,
                n == self@.buffers.len(),
                r@ =~= self@.buffers.subrange(0, i as int).map_values(|p: (u32, u32)| p.1),
            decreases n - i,
        {
            r.push(*self.buffers.value_at(i));
            proof {
                assert(self@.buffers.subrange(0, i + 1).drop_last() =~= self@.buffers.subrange(
                    0,
                    i as int,
                ));
                assert(self@.buffers.subrange(0, i + 1).map_values(|p: (u32, u32)| p.1)
                    =~= self@.buffers.subrange(0, i as int).map_values(|p: (u32, u32)| p.1).push(
                    self@.buffers[i as int].1));
            }
            i = i + 1;
        }
        proof {
            assert(self@.buffers.subrange(0, n as int) =~= self@.buffers);
        }
        r
    }

    /// Drops the one-shot voices whose flag in `stopped` is set; the caller
    /// polled each voice's native state into that vector, index for index.
    pub fn apply_cleanup(&mut self, stopped: &Vec<bool>)
        requires
            engine_wf(old(self)@),
            stopped@.len() == old(self)@.sources.len(),
        ensures
            final(self)@ == (EngineView {
                sources: keep_running(old(self)@.sources, stopped@),
                ..old(self)@
            }),
            engine_wf(final(self)@),
    {
        let ghost s0 = self.sources@;
        let mut kept: Vec<u32> = Vec::new();
        let n = self.sources.len();
        let mut i: usize = 0;
        while i < n
            invariant
                i <= n,
                n == self.sources@.len(),
                self.sources@ == s0,
                stopped@.len() == n,
                kept@ =~= keep_running(s0.subrange(0, i as int), stopped@.subrange(0, i as int)),
            decreases n - i,
        {
            if !stopped[i] {
                kept.push(self.sources[i]);
            }
            proof {
                assert(s0.subrange(0, i + 1).drop_last() =~= s0.subrange(0, i as int));
                assert(stopped@.subrange(0, i + 1).drop_last() =~= stopped@.subrange(0, i as int));
            }
            i = i + 1;
        }
        proof {
            assert(s0.subrange(0, n as int) =~= s0);
            assert(stopped@.subrange(0, n as int) =~= stopped@);
            lemma_keep_running_len(s0, stopped@);
        }
        self.sources = kept;
    }
}

/// Maps a zero buffer handle, which the backend uses as "no buffer", to an error.
pub fn check_buffer_handle(handle: u32) -> (r: Result<u32, OpenalError>)
    ensures
        r == if handle == 0 {
            Err::<u32, OpenalError>(OpenalError::InvalidBufferHandle)
        } else {
            Ok::<u32, OpenalError>(handle)
        },
{
    if handle == 0 {
        Err(OpenalError::InvalidBufferHandle)
    } else {
        Ok(handle)
    }
}

/// Maps a zero voice handle, which the backend uses as "no voice", to an error.
pub fn check_source_handle(handle: u32) -> (r: Result<u32, OpenalError>)
    ensures
        r == if handle == 0 {
            Err::<u32, OpenalError>(OpenalError::InvalidSourceHandle)
        } else {
            Ok::<u32, OpenalError>(handle)
        },
{
    if handle == 0 {
        Err(OpenalError::InvalidSourceHandle)
    } else {
        Ok(handle)
    }
}

} // verus!
