//! The worker: the single owner of the backend. Its state machine is split
//! into `begin` steps, which record the caller's intent and decide what the
//! native backend must be asked to do, and `finish` steps, which take the
//! native outcome and record and publish its consequences. The thread that
//! owns a [`WorkerState`] performs the native calls between the two; every
//! decision, all bookkeeping, and each published snapshot are decided here.
//!
//! Each step's contract equates the new state with a spec-level transition
//! (`spec_status_ok`, `spec_replay`, ...); the crate's laws are proved over
//! those transitions.

use vstd::prelude::*;

verus! {

use crate::data::{
    AudioRuntimeConfig, AudioRuntimeStatus, AudioView, BufferKey, DecodedAudioMono16,
    EngineDiag, ListenerFrame, PlayOneShotParams, StatusView, Vec3Bits, opt_string_view,
    F32_NEG_ONE_BITS, F32_ONE_BITS, F32_ZERO_BITS,
};
use crate::engine::{
    engine_occupied, engine_wf, keep_running, spec_create_buffer_check, spec_loop_plan,
    spec_play_check, EngineModel, EngineView, LoopPlan,
};
use crate::errors::{error_text, OpenalError};
use crate::keymap::{assoc_distinct, assoc_has, assoc_index, KeyMap};
use crate::modes::{AudioRenderMode, DistanceModel};

/// The listener frame assumed until a caller supplies one: at the origin,
/// facing -Z with +Y up, at rest.
pub open spec fn default_listener() -> ListenerFrame {
    ListenerFrame {
        position: Vec3Bits { x: F32_ZERO_BITS, y: F32_ZERO_BITS, z: F32_ZERO_BITS },
        forward: Vec3Bits { x: F32_ZERO_BITS, y: F32_ZERO_BITS, z: F32_NEG_ONE_BITS },
        up: Vec3Bits { x: F32_ZERO_BITS, y: F32_ONE_BITS, z: F32_ZERO_BITS },
        velocity: Vec3Bits { x: F32_ZERO_BITS, y: F32_ZERO_BITS, z: F32_ZERO_BITS },
    }
}

/// Abstract value of the whole worker: its settings, the replayable ledger,
/// the live backend bookkeeping, and the published status.
#[verifier::ext_equal]
pub ghost struct WorkerView {
    pub render_mode: AudioRenderMode,
    pub muted: bool,
    pub distance_model: DistanceModel,
    pub max_sources: usize,
    pub preferred_device: Option<Seq<char>>,
    /// Every clip ever stored, key and decoded value, in first-insertion order.
    pub ledger: Seq<(u32, AudioView)>,
    /// The caller's latest loop wish, updated before the backend is touched.
    pub loop_intent: Option<(u32, PlayOneShotParams)>,
    /// The last listener frame received, replayed onto a rebuilt backend.
    pub listener: ListenerFrame,
    /// Bookkeeping of the live backend handle, absent while construction fails.
    pub engine: Option<EngineView>,
    /// The snapshot that readers poll.
    pub status: StatusView,
    /// Set once the worker has torn everything down for good.
    pub stopped: bool,
}

/// Worker invariant: ledger keys unique, engine bookkeeping sound and sized
/// by this worker's pool.
pub open spec fn worker_wf(w: WorkerView) -> bool {
    &&& assoc_distinct(w.ledger)
    &&& (match w.engine {
        Some(e) => engine_wf(e) && e.max_sources == w.max_sources,
        None => true,
    })
}

/// The state a worker starts in, before any backend construction attempt.
pub open spec fn spec_init(
    render_mode: AudioRenderMode,
    distance_model: DistanceModel,
    max_sources: usize,
    preferred_device: Option<Seq<char>>,
) -> WorkerView {
    WorkerView {
        render_mode,
        muted: false,
        distance_model,
        max_sources,
        preferred_device,
        ledger: Seq::empty(),
        loop_intent: None,
        listener: default_listener(),
        engine: None,
        status: StatusView {
            library_loaded: false,
            device_open: false,
            context_created: false,
            render_mode,
            output_mode: None,
            output_mode_raw: None,
            distance_model,
            hrtf_active: false,
            muted: false,
            loaded_buffers: 0,
            active_sources: 0,
            last_error: None,
        },
        stopped: false,
    }
}

/// Publishing success: every diagnostic field is re-read from the live
/// engine, the mode and mute flag from the worker, and the sticky error is
/// cleared. Without a live engine nothing is published.
pub open spec fn spec_status_ok(w: WorkerView) -> WorkerView {
    match w.engine {
        Some(e) => WorkerView {
            status: StatusView {
                library_loaded: true,
                device_open: true,
                context_created: true,
                render_mode: w.render_mode,
                output_mode: e.output_mode,
                output_mode_raw: e.output_mode_raw,
                distance_model: e.distance_model,
                hrtf_active: e.hrtf_active,
                muted: w.muted,
                loaded_buffers: w.status.loaded_buffers,
                active_sources: w.status.active_sources,
                last_error: None,
            },
            ..w
        },
        None => w,
    }
}

/// Publishing a failure: the worker's own settings and the error text; the
/// backend-liveness fields keep their last value.
pub open spec fn spec_status_error(w: WorkerView, e: OpenalError) -> WorkerView {
    WorkerView {
        status: StatusView {
            render_mode: w.render_mode,
            distance_model: w.distance_model,
            muted: w.muted,
            last_error: Some(error_text(e)),
            ..w.status
        },
        ..w
    }
}

/// Recording a best-effort failure: only the sticky error changes.
pub open spec fn spec_record_error(w: WorkerView, e: OpenalError) -> WorkerView {
    WorkerView { status: StatusView { last_error: Some(error_text(e)), ..w.status }, ..w }
}

/// Refreshing the published buffer and voice counts from the live engine.
pub open spec fn spec_refresh_counts(w: WorkerView) -> WorkerView {
    match w.engine {
        Some(e) => WorkerView {
            status: StatusView {
                loaded_buffers: e.buffers.len() as usize,
                active_sources: engine_occupied(e) as usize,
                ..w.status
            },
            ..w
        },
        None => w,
    }
}

/// The ledger as abstract values.
pub open spec fn ledger_view(l: Seq<(u32, DecodedAudioMono16)>) -> Seq<(u32, AudioView)> {
    l.map_values(|p: (u32, DecodedAudioMono16)| (p.0, p.1@))
}

/// The ledger abstraction keeps keys, positions and distinctness.
proof fn lemma_ledger_view_key(l: Seq<(u32, DecodedAudioMono16)>, k: u32)
    ensures
        assoc_has(ledger_view(l), k) == assoc_has(l, k),
        assoc_distinct(l) ==> assoc_distinct(ledger_view(l)),
        assoc_distinct(l) && assoc_has(l, k) ==> assoc_index(ledger_view(l), k) == assoc_index(
            l,
            k,
        ),
{
    if assoc_has(l, k) {
        let i = choose|i: int| 0 <= i < l.len() && (#[trigger] l[i]).0 == k;
        assert(ledger_view(l)[i].0 == k);
        assert(assoc_has(ledger_view(l), k));
    }
    if assoc_has(ledger_view(l), k) {
        let i = choose|i: int|
            0 <= i < ledger_view(l).len() && (#[trigger] ledger_view(l)[i]).0 == k;
        assert(l[i].0 == k);
        assert(assoc_has(l, k));
    }
    if assoc_distinct(l) {
        assert forall|i: int, j: int| 0 <= i < j < ledger_view(l).len() implies (
        #[trigger] ledger_view(l)[i]).0 != (#[trigger] ledger_view(l)[j]).0 by {
            assert(l[i].0 != l[j].0);
        }
        if assoc_has(l, k) {
            let i = assoc_index(l, k);
            let j = assoc_index(ledger_view(l), k);
            assert(ledger_view(l)[i].0 == k);
            assert(l[j].0 == k);
        }
    }
}

/// Storing a clip in the ledger: overwrite in place, or append.
pub open spec fn spec_ledger_insert(
    l: Seq<(u32, AudioView)>,
    key: u32,
    data: AudioView,
) -> Seq<(u32, AudioView)> {
    if assoc_has(l, key) {
        l.update(assoc_index(l, key), (key, data))
    } else {
        l.push((key, data))
    }
}

/// The engine, with the worker's current distance model recorded as applied.
pub open spec fn spec_distance_applied(w: WorkerView) -> WorkerView {
    match w.engine {
        Some(e) => WorkerView {
            engine: Some(EngineView { distance_model: w.distance_model, ..e }),
            ..w
        },
        None => w,
    }
}

/// The engine, with a new buffer recorded under its native handle.
pub open spec fn spec_buffer_recorded(w: WorkerView, key: u32, handle: u32) -> WorkerView {
    match w.engine {
        Some(e) => WorkerView {
            engine: Some(EngineView { buffers: e.buffers.push((key, handle)), ..e }),
            ..w
        },
        None => w,
    }
}

/// The engine, with a new one-shot voice recorded.
pub open spec fn spec_one_shot_recorded(w: WorkerView, handle: u32) -> WorkerView {
    match w.engine {
        Some(e) => WorkerView {
            engine: Some(EngineView { sources: e.sources.push(handle), ..e }),
            ..w
        },
        None => w,
    }
}

/// The engine, with no loop voice.
pub open spec fn spec_loop_cleared(w: WorkerView) -> WorkerView {
    match w.engine {
        Some(e) => WorkerView { engine: Some(EngineView { loop_source: None, ..e }), ..w },
        None => w,
    }
}

/// The engine, with the loop voice recorded on `key` under `handle`.
pub open spec fn spec_loop_recorded(w: WorkerView, key: u32, handle: u32) -> WorkerView {
    match w.engine {
        Some(e) => WorkerView {
            engine: Some(EngineView { loop_source: Some((key, handle)), ..e }),
            ..w
        },
        None => w,
    }
}

/// The native handle of the loop voice, if one plays.
pub open spec fn spec_loop_handle(e: EngineView) -> Option<u32> {
    match e.loop_source {
        Some(p) => Some(p.1),
        None => None,
    }
}

/// A stop-loop request: the wish and the loop bookkeeping are both cleared.
pub open spec fn spec_stop_loop_begin(w: WorkerView) -> WorkerView {
    WorkerView { loop_intent: None, ..spec_loop_cleared(w) }
}

/// A reclamation pass: the flagged one-shot voices leave the bookkeeping.
pub open spec fn spec_cleanup(w: WorkerView, stopped: Seq<bool>) -> WorkerView {
    match w.engine {
        Some(e) => WorkerView {
            engine: Some(EngineView { sources: keep_running(e.sources, stopped), ..e }),
            ..w
        },
        None => w,
    }
}

/// The worker with no live engine.
pub open spec fn spec_detach(w: WorkerView) -> WorkerView {
    WorkerView { engine: None, ..w }
}

/// The worker once torn down for good.
pub open spec fn spec_shutdown(w: WorkerView) -> WorkerView {
    WorkerView { engine: None, stopped: true, ..w }
}

/// Bookkeeping of a backend handle that was just constructed: nothing
/// created yet, diagnostics as read, the worker's pool size and model.
pub open spec fn fresh_engine_view(
    w: WorkerView,
    hrtf_active: bool,
    output_mode: Option<Seq<char>>,
    output_mode_raw: Option<i32>,
) -> EngineView {
    EngineView {
        buffers: Seq::empty(),
        sources: Seq::empty(),
        loop_source: None,
        max_sources: w.max_sources,
        hrtf_active,
        output_mode,
        output_mode_raw,
        distance_model: w.distance_model,
    }
}

/// Replaying one ledger entry onto the engine: the same checks a caller's
/// request passes, then the native outcome; failures are published, success
/// records the buffer.
pub open spec fn spec_replay_step(
    w: WorkerView,
    key: u32,
    data: AudioView,
    outcome: Result<u32, OpenalError>,
) -> WorkerView {
    match w.engine {
        Some(e) => match spec_create_buffer_check(e, key, data) {
            Err(er) => spec_status_error(w, er),
            Ok(_) => match outcome {
                Ok(h) => if h == 0 {
                    spec_status_error(w, OpenalError::InvalidBufferHandle)
                } else {
                    spec_buffer_recorded(w, key, h)
                },
                Err(er) => spec_status_error(w, er),
            },
        },
        None => w,
    }
}

/// The first `n` ledger entries replayed in order.
pub open spec fn spec_replay_upto(
    w: WorkerView,
    outcomes: Seq<Result<u32, OpenalError>>,
    n: int,
) -> WorkerView
    decreases n,
{
    if n <= 0 {
        w
    } else {
        spec_replay_step(
            spec_replay_upto(w, outcomes, n - 1),
            w.ledger[n - 1].0,
            w.ledger[n - 1].1,
            outcomes[n - 1],
        )
    }
}

/// The whole ledger replayed in order.
pub open spec fn spec_replay(w: WorkerView, outcomes: Seq<Result<u32, OpenalError>>) -> WorkerView {
    spec_replay_upto(w, outcomes, w.ledger.len() as int)
}

/// Replay touches only the published status and the engine's buffer table;
/// everything else, the engine's presence included, is carried through.
pub proof fn lemma_replay_frame(w: WorkerView, outcomes: Seq<Result<u32, OpenalError>>, n: int)
    ensures
        ({
            let r = spec_replay_upto(w, outcomes, n);
            &&& r.render_mode == w.render_mode
            &&& r.muted == w.muted
            &&& r.distance_model == w.distance_model
            &&& r.max_sources == w.max_sources
            &&& r.preferred_device == w.preferred_device
            &&& r.ledger == w.ledger
            &&& r.loop_intent == w.loop_intent
            &&& r.listener == w.listener
            &&& r.stopped == w.stopped
            &&& (r.engine is Some <==> w.engine is Some)
            &&& (match (w.engine, r.engine) {
                (Some(e0), Some(e1)) => {
                    &&& e1.sources == e0.sources
                    &&& e1.loop_source == e0.loop_source
                    &&& e1.max_sources == e0.max_sources
                    &&& e1.hrtf_active == e0.hrtf_active
                    &&& e1.output_mode == e0.output_mode
                    &&& e1.output_mode_raw == e0.output_mode_raw
                    &&& e1.distance_model == e0.distance_model
                },
                _ => true,
            })
        }),
    decreases n,
{
    if n > 0 {
        lemma_replay_frame(w, outcomes, n - 1);
    }
}

/// The native resources to delete when a backend handle is torn down:
/// voices first, then buffers, as the backend requires.
pub struct TeardownPlan {
    pub buffer_handles: Vec<u32>,
    pub one_shot_handles: Vec<u32>,
    pub loop_handle: Option<u32>,
}

/// The worker's replayable state and status mirror. Exactly one thread is
/// meant to own a value of this type and drive it; everything the native
/// backend must be asked to do is returned to that owner as plain data.
pub struct WorkerState {
    render_mode: AudioRenderMode,
    muted: bool,
    distance_model: DistanceModel,
    max_sources: usize,
    preferred_device: Option<String>,
    ledger: KeyMap<DecodedAudioMono16>,
    loop_intent: Option<(BufferKey, PlayOneShotParams)>,
    listener: ListenerFrame,
    engine: Option<EngineModel>,
    status: AudioRuntimeStatus,
    stopped: bool,
}

impl View for WorkerState {
    type V = WorkerView;

    closed spec fn view(&self) -> WorkerView {
        WorkerView {
            render_mode: self.render_mode,
            muted: self.muted,
            distance_model: self.distance_model,
            max_sources: self.max_sources,
            preferred_device: opt_string_view(self.preferred_device),
            ledger: ledger_view(self.ledger.seq()),
            loop_intent: self.loop_intent,
            listener: self.listener,
            engine: (match self.engine {
                Some(e) => Some(e@),
                None => None,
            }),
            status: self.status@,
            stopped: self.stopped,
        }
    }
}

impl WorkerState {
    /// Ledger keys stay unique and the engine bookkeeping sound.
    pub closed spec fn wf(&self) -> bool {
        &&& self.ledger.wf()
        &&& worker_wf(self@)
    }

    /// A worker that has not yet tried to construct the backend.
    pub fn new(config: AudioRuntimeConfig) -> (r: Self)
        ensures
            r@ == spec_init(
                config.initial_render_mode,
                config.distance_model,
                config.max_sources,
                opt_string_view(config.preferred_device),
            ),
            r.wf(),
    {
        let status = AudioRuntimeStatus::initial(config.initial_render_mode, config.distance_model);
        let r = WorkerState {
            render_mode: config.initial_render_mode,
            muted: false,
            distance_model: config.distance_model,
            max_sources: config.max_sources,
            preferred_device: config.preferred_device,
            ledger: KeyMap::new(),
            loop_intent: None,
            listener: ListenerFrame::default(),
            engine: None,
            status,
            stopped: false,
        };
        proof {
            assert(ledger_view(r.ledger.seq()) =~= Seq::<(u32, AudioView)>::empty());
            assert(r@ =~= spec_init(
                config.initial_render_mode,
                config.distance_model,
                config.max_sources,
                opt_string_view(config.preferred_device),
            ));
        }
        r
    }

    /// A copy of the published snapshot; what `status()` readers receive.
    pub fn status_snapshot(&self) -> (r: AudioRuntimeStatus)
        ensures
            r@ == self@.status,
    {
        self.status.snapshot()
    }

    pub fn has_engine(&self) -> (r: bool)
        ensures
            r == (self@.engine is Some),
    {
        self.engine.is_some()
    }

    pub fn is_stopped(&self) -> (r: bool)
        ensures
            r == self@.stopped,
    {
        self.stopped
    }

    pub fn muted(&self) -> (r: bool)
        ensures
            r == self@.muted,
    {
        self.muted
    }

    pub fn render_mode(&self) -> (r: AudioRenderMode)
        ensures
            r == self@.render_mode,
    {
        self.render_mode
    }

    pub fn distance_model(&self) -> (r: DistanceModel)
        ensures
            r == self@.distance_model,
    {
        self.distance_model
    }

    pub fn preferred_device(&self) -> (r: &Option<String>)
        ensures
            opt_string_view(*r) == self@.preferred_device,
    {
        &self.preferred_device
    }

    pub fn listener(&self) -> (r: ListenerFrame)
        ensures
            r == self@.listener,
    {
        self.listener
    }

    /// Publishes a success snapshot from the live engine; see `spec_status_ok`.
    pub fn update_status_ok(&mut self)
        ensures
            final(self)@ == spec_status_ok(old(self)@),
            final(self).wf() == old(self).wf(),
    {
        match &self.engine {
            Some(e) => {
                self.status.library_loaded = true;
                self.status.device_open = true;
                self.status.context_created = true;
                self.status.render_mode = self.render_mode;
                self.status.output_mode = crate::data::clone_opt_string(e.output_mode());
                self.status.output_mode_raw = e.output_mode_raw();
                self.status.distance_model = e.distance_model();
                self.status.hrtf_active = e.hrtf_active();
                self.status.muted = self.muted;
                self.status.last_error = None;
                proof {
                    assert(final(self)@ =~= spec_status_ok(old(self)@));
                }
            },
            None => {
                proof {
                    assert(final(self)@ =~= spec_status_ok(old(self)@));
                }
            },
        }
    }

    /// Publishes a failure snapshot; see `spec_status_error`.
    pub fn update_status_error(&mut self, err: &OpenalError)
        ensures
            final(self)@ == spec_status_error(old(self)@, *err),
            final(self).wf() == old(self).wf(),
    {
        self.status.render_mode = self.render_mode;
        self.status.distance_model = self.distance_model;
        self.status.muted = self.muted;
        self.status.last_error = Some(err.message());
        proof {
            assert(final(self)@ =~= spec_status_error(old(self)@, *err));
        }
    }

    /// Records a best-effort failure in the sticky error alone.
    pub fn record_error(&mut self, err: &OpenalError)
        ensures
            final(self)@ == spec_record_error(old(self)@, *err),
            final(self).wf() == old(self).wf(),
    {
        self.status.last_error = Some(err.message());
        proof {
            assert(final(self)@ =~= spec_record_error(old(self)@, *err));
        }
    }

    /// Caches the new mute wish; the caller then applies it natively if a
    /// backend exists, and reports the outcome to `set_muted_finish`.
    pub fn set_muted_begin(&mut self, muted: bool) -> (has_engine: bool)
        ensures
            final(self)@ == (WorkerView { muted, ..old(self)@ }),
            has_engine == (old(self)@.engine is Some),
            final(self).wf() == old(self).wf(),
    {
        self.muted = muted;
        proof {
            assert(final(self)@ =~= (WorkerView { muted, ..old(self)@ }));
        }
        self.engine.is_some()
    }

    /// Publishes the outcome of the native mute call.
    pub fn set_muted_finish(&mut self, outcome: Result<(), OpenalError>)
        ensures
            final(self)@ == (match outcome {
                Ok(_) => spec_status_ok(old(self)@),
                Err(e) => spec_status_error(old(self)@, e),
            }),
            final(self).wf() == old(self).wf(),
    {
        match outcome {
            Ok(_) => self.update_status_ok(),
            Err(e) => self.update_status_error(&e),
        }
    }

    /// Caches the new distance model; the caller then applies it natively if
    /// a backend exists, and reports the outcome to `set_distance_model_finish`.
    pub fn set_distance_model_begin(&mut self, model: DistanceModel) -> (has_engine: bool)
        ensures
            final(self)@ == (WorkerView { distance_model: model, ..old(self)@ }),
            has_engine == (old(self)@.engine is Some),
            final(self).wf() == old(self).wf(),
    {
        self.distance_model = model;
        proof {
            assert(final(self)@ =~= (WorkerView { distance_model: model, ..old(self)@ }));
        }
        self.engine.is_some()
    }

    /// Publishes the outcome of the native distance-model call; on success
    /// the engine records the model as current.
    pub fn set_distance_model_finish(&mut self, outcome: Result<(), OpenalError>)
        ensures
            final(self)@ == (match outcome {
                Ok(_) => spec_status_ok(spec_distance_applied(old(self)@)),
                Err(e) => spec_status_error(old(self)@, e),
            }),
            final(self).wf() == old(self).wf(),
    {
        match outcome {
            Ok(_) => {
                let model = self.distance_model;
                match &mut self.engine {
                    Some(e) => e.set_distance_model(model),
                    None => {},
                }
                proof {
                    assert(self@ =~= spec_distance_applied(old(self)@));
                }
                self.update_status_ok();
            },
            Err(e) => self.update_status_error(&e),
        }
    }

    /// Caches the listener frame for later replay, whatever the backend then
    /// says; the caller forwards it natively if a backend exists.
    pub fn set_listener_begin(&mut self, frame: ListenerFrame) -> (has_engine: bool)
        ensures
            final(self)@ == (WorkerView { listener: frame, ..old(self)@ }),
            has_engine == (old(self)@.engine is Some),
            final(self).wf() == old(self).wf(),
    {
        self.listener = frame;
        proof {
            assert(final(self)@ =~= (WorkerView { listener: frame, ..old(self)@ }));
        }
        self.engine.is_some()
    }

    /// Publishes a failed native listener update; success changes nothing.
    pub fn set_listener_finish(&mut self, outcome: Result<(), OpenalError>)
        ensures
            final(self)@ == (match outcome {
                Ok(_) => old(self)@,
                Err(e) => spec_status_error(old(self)@, e),
            }),
            final(self).wf() == old(self).wf(),
    {
        match outcome {
            Ok(_) => {},
            Err(e) => self.update_status_error(&e),
        }
    }

    /// Stores the clip in the ledger, overwriting any prior entry for the
    /// key, and decides whether the backend can take it: `None` without a
    /// backend, otherwise the upload sizes or the error to publish.
    pub fn create_buffer_begin(&mut self, key: BufferKey, data: DecodedAudioMono16) -> (r: Option<
        Result<(i32, i32), OpenalError>,
    >)
        requires
            old(self).wf(),
        ensures
            final(self)@ == (WorkerView {
                ledger: spec_ledger_insert(old(self)@.ledger, key, data@),
                ..old(self)@
            }),
            r == (match old(self)@.engine {
                Some(e) => Some(spec_create_buffer_check(e, key, data@)),
                None => None::<Result<(i32, i32), OpenalError>>,
            }),
            final(self).wf(),
    {
        let r = match &self.engine {
            Some(e) => Some(e.create_buffer_check(key, &data)),
            None => None,
        };
        proof {
            lemma_ledger_view_key(self.ledger.seq(), key);
        }
        let ghost l0 = self.ledger.seq();
        let replaced = self.ledger.insert(key, data);
        proof {
            lemma_ledger_view_key(l0, key);
            if replaced {
                assert(ledger_view(self.ledger.seq()) =~= ledger_view(l0).update(
                    assoc_index(l0, key),
                    (key, data@),
                ));
            } else {
                assert(ledger_view(self.ledger.seq()) =~= ledger_view(l0).push((key, data@)));
            }
            assert(final(self)@ =~= (WorkerView {
                ledger: spec_ledger_insert(old(self)@.ledger, key, data@),
                ..old(self)@
            }));
        }
        r
    }

    /// Publishes the outcome of the native buffer upload; on success the
    /// engine records the new buffer under its native handle.
    pub fn create_buffer_finish(&mut self, key: BufferKey, outcome: Result<u32, OpenalError>)
        requires
            old(self).wf(),
            outcome matches Ok(_) ==> old(self)@.engine matches Some(e) && !assoc_has(
                e.buffers,
                key,
            ),
        ensures
            final(self)@ == (match outcome {
                Ok(h) => spec_status_ok(spec_buffer_recorded(old(self)@, key, h)),
                Err(e) => spec_status_error(old(self)@, e),
            }),
            final(self).wf(),
    {
        match outcome {
            Ok(h) => {
                match &mut self.engine {
                    Some(e) => e.record_buffer(key, h),
                    None => {},
                }
                proof {
                    assert(self@ =~= spec_buffer_recorded(old(self)@, key, h));
                }
                self.update_status_ok();
            },
            Err(e) => self.update_status_error(&e),
        }
    }

    /// Whether a one-shot may start: `None` without a backend (the request
    /// is silently dropped), otherwise the buffer handle to bind or the
    /// error to record.
    pub fn play_one_shot_check(&self, key: BufferKey) -> (r: Option<Result<u32, OpenalError>>)
        requires
            self.wf(),
        ensures
            r == (match self@.engine {
                Some(e) => Some(spec_play_check(e, key)),
                None => None::<Result<u32, OpenalError>>,
            }),
    {
        match &self.engine {
            Some(e) => Some(e.play_check(key)),
            None => None,
        }
    }

    /// Records the outcome of starting a one-shot natively: the new voice on
    /// success, the sticky error alone on failure.
    pub fn play_one_shot_finish(&mut self, outcome: Result<u32, OpenalError>)
        requires
            old(self).wf(),
            outcome matches Ok(_) ==> old(self)@.engine matches Some(e) && engine_occupied(e)
                < e.max_sources,
        ensures
            final(self)@ == (match outcome {
                Ok(h) => spec_one_shot_recorded(old(self)@, h),
                Err(e) => spec_record_error(old(self)@, e),
            }),
            final(self).wf(),
    {
        match outcome {
            Ok(h) => {
                match &mut self.engine {
                    Some(e) => e.record_one_shot(h),
                    None => {},
                }
                proof {
                    assert(final(self)@ =~= spec_one_shot_recorded(old(self)@, h));
                }
            },
            Err(e) => self.record_error(&e),
        }
    }

    /// Records the caller's loop wish before anything native happens, so a
    /// later rebuild replays the latest intent even if the backend fails
    /// now; returns what the backend must be asked to do, if one exists.
    pub fn start_loop_begin(&mut self, key: BufferKey, params: PlayOneShotParams) -> (r: Option<
        LoopPlan,
    >)
        requires
            old(self).wf(),
        ensures
            final(self)@ == (WorkerView { loop_intent: Some((key, params)), ..old(self)@ }),
            r == (match old(self)@.engine {
                Some(e) => Some(spec_loop_plan(e, key)),
                None => None::<LoopPlan>,
            }),
            final(self).wf(),
    {
        self.loop_intent = Some((key, params));
        proof {
            assert(final(self)@ =~= (WorkerView {
                loop_intent: Some((key, params)),
                ..old(self)@
            }));
        }
        match &self.engine {
            Some(e) => Some(e.loop_plan(key)),
            None => None,
        }
    }

    /// Publishes the outcome of restarting the existing loop voice in place.
    pub fn loop_update_finish(&mut self, outcome: Result<(), OpenalError>)
        ensures
            final(self)@ == (match outcome {
                Ok(_) => spec_status_ok(old(self)@),
                Err(e) => spec_record_error(old(self)@, e),
            }),
            final(self).wf() == old(self).wf(),
    {
        match outcome {
            Ok(_) => self.update_status_ok(),
            Err(e) => self.record_error(&e),
        }
    }

    /// Records that the loop voice was stopped and deleted natively.
    pub fn loop_removed(&mut self)
        ensures
            final(self)@ == spec_loop_cleared(old(self)@),
            old(self).wf() ==> final(self).wf(),
    {
        match &mut self.engine {
            Some(e) => e.clear_loop(),
            None => {},
        }
        proof {
            assert(final(self)@ =~= spec_loop_cleared(old(self)@));
        }
    }

    /// Records the outcome of starting a fresh loop voice for a caller's
    /// request: the voice and a success snapshot, or the sticky error alone.
    pub fn loop_start_finish(&mut self, key: BufferKey, outcome: Result<u32, OpenalError>)
        requires
            old(self).wf(),
            outcome matches Ok(_) ==> old(self)@.engine matches Some(e) && e.loop_source is None
                && e.sources.len() < e.max_sources,
        ensures
            final(self)@ == (match outcome {
                Ok(h) => spec_status_ok(spec_loop_recorded(old(self)@, key, h)),
                Err(e) => spec_record_error(old(self)@, e),
            }),
            final(self).wf(),
    {
        match outcome {
            Ok(h) => {
                match &mut self.engine {
                    Some(e) => e.record_loop(key, h),
                    None => {},
                }
                proof {
                    assert(self@ =~= spec_loop_recorded(old(self)@, key, h));
                }
                self.update_status_ok();
            },
            Err(e) => self.record_error(&e),
        }
    }

    /// Clears the loop wish and the loop bookkeeping; returns `None` without
    /// a backend, else the native voice to stop and delete, if one plays.
    pub fn stop_loop_begin(&mut self) -> (r: Option<Option<u32>>)
        ensures
            final(self)@ == spec_stop_loop_begin(old(self)@),
            r == (match old(self)@.engine {
                Some(e) => Some(spec_loop_handle(e)),
                None => None::<Option<u32>>,
            }),
            old(self).wf() ==> final(self).wf(),
    {
        self.loop_intent = None;
        let r = match &mut self.engine {
            Some(e) => {
                let lv = e.loop_voice();
                e.clear_loop();
                Some(
                    match lv {
                        Some(p) => Some(p.1),
                        None => None,
                    },
                )
            },
            None => None,
        };
        proof {
            assert(final(self)@ =~= spec_stop_loop_begin(old(self)@));
        }
        r
    }

    /// Publishes success after a stop-loop request; stopping never fails.
    pub fn stop_loop_finish(&mut self)
        ensures
            final(self)@ == spec_status_ok(old(self)@),
            final(self).wf() == old(self).wf(),
    {
        self.update_status_ok();
    }

    /// Forgets the live engine and hands back every native handle it held,
    /// for the owner to delete: voices first, then buffers.
    pub fn detach_engine(&mut self) -> (r: Option<TeardownPlan>)
        ensures
            final(self)@ == spec_detach(old(self)@),
            (match old(self)@.engine {
                Some(e) => r matches Some(t) && t.buffer_handles@ == e.buffers.map_values(
                    |p: (u32, u32)| p.1,
                ) && t.one_shot_handles@ == e.sources && t.loop_handle == spec_loop_handle(e),
                None => r is None,
            }),
            old(self).wf() ==> final(self).wf(),
    {
        let r = match &self.engine {
            Some(e) => Some(
                TeardownPlan {
                    buffer_handles: e.buffer_handles(),
                    one_shot_handles: e.one_shot_handles(),
                    loop_handle: (match e.loop_voice() {
                        Some(p) => Some(p.1),
                        None => None,
                    }),
                },
            ),
            None => None,
        };
        self.engine = None;
        proof {
            assert(final(self)@ =~= spec_detach(old(self)@));
        }
        r
    }

    /// Adopts the new render mode and detaches the old engine for teardown;
    /// the caller then attempts native construction and reports through
    /// `construction_ok` or `construction_failed`.
    pub fn set_render_mode_begin(&mut self, mode: AudioRenderMode) -> (r: Option<TeardownPlan>)
        ensures
            final(self)@ == spec_detach((WorkerView { render_mode: mode, ..old(self)@ })),
            (match old(self)@.engine {
                Some(e) => r matches Some(t) && t.buffer_handles@ == e.buffers.map_values(
                    |p: (u32, u32)| p.1,
                ) && t.one_shot_handles@ == e.sources && t.loop_handle == spec_loop_handle(e),
                None => r is None,
            }),
            old(self).wf() ==> final(self).wf(),
    {
        self.render_mode = mode;
        proof {
            assert(self@ =~= (WorkerView { render_mode: mode, ..old(self)@ }));
        }
        self.detach_engine()
    }

    /// Publishes a failed backend construction; the worker stays up with no
    /// engine, and a later mode change may try again.
    pub fn construction_failed(&mut self, err: &OpenalError)
        ensures
            final(self)@ == spec_status_error(old(self)@, *err),
            old(self).wf() ==> final(self).wf(),
    {
        self.update_status_error(err);
    }

    /// Adopts a freshly constructed backend handle with its diagnostics.
    pub fn construction_ok(&mut self, diag: EngineDiag)
        requires
            old(self).wf(),
            old(self)@.engine is None,
        ensures
            final(self)@ == (WorkerView {
                engine: Some(
                    fresh_engine_view(
                        old(self)@,
                        diag.hrtf_active,
                        opt_string_view(diag.output_mode),
                        diag.output_mode_raw,
                    ),
                ),
                ..old(self)@
            }),
            final(self).wf(),
    {
        let ghost hrtf = diag.hrtf_active;
        let ghost om = opt_string_view(diag.output_mode);
        let ghost omr = diag.output_mode_raw;
        let e = EngineModel::new(diag, self.max_sources, self.distance_model);
        self.engine = Some(e);
        proof {
            assert(final(self)@ =~= (WorkerView {
                engine: Some(fresh_engine_view(old(self)@, hrtf, om, omr)),
                ..old(self)@
            }));
        }
    }

    /// How many clips the ledger holds.
    pub fn ledger_len(&self) -> (r: usize)
        ensures
            r == self@.ledger.len(),
    {
        self.ledger.len()
    }

    /// The key of the ledger entry at position `i`.
    pub fn ledger_key_at(&self, i: usize) -> (r: u32)
        requires
            i < self@.ledger.len(),
        ensures
            r == self@.ledger[i as int].0,
    {
        self.ledger.key_at(i)
    }

    /// The clip of the ledger entry at position `i`, for the caller to
    /// upload natively during replay.
    pub fn ledger_data_at(&self, i: usize) -> (r: &DecodedAudioMono16)
        requires
            i < self@.ledger.len(),
        ensures
            r@ == self@.ledger[i as int].1,
    {
        self.ledger.value_at(i)
    }

    /// Whether the ledger entry at `i` can be uploaded to the live engine,
    /// and the byte length and rate to upload if so.
    pub fn replay_upload_check(&self, i: usize) -> (r: Result<(i32, i32), OpenalError>)
        requires
            self.wf(),
            i < self@.ledger.len(),
            self@.engine is Some,
        ensures
            r == spec_create_buffer_check(
                self@.engine->0,
                self@.ledger[i as int].0,
                self@.ledger[i as int].1,
            ),
    {
        let key = self.ledger.key_at(i);
        match &self.engine {
            Some(e) => e.create_buffer_check(key, self.ledger.value_at(i)),
            None => {
                proof {
                    assert(false);
                }
                Err(OpenalError::LibraryLoadFailed)
            },
        }
    }

    /// Replays the whole ledger onto the engine, entry by entry in order.
    /// `outcomes[i]` is what the backend said to uploading entry `i`; for an
    /// entry the checks reject, it is ignored. Failures are published as
    /// they occur; successes record their buffers.
    pub fn replay_buffers(&mut self, outcomes: &Vec<Result<u32, OpenalError>>)
        requires
            old(self).wf(),
            old(self)@.engine is Some,
            outcomes@.len() == old(self)@.ledger.len(),
        ensures
            final(self)@ == spec_replay(old(self)@, outcomes@),
            final(self).wf(),
    {
        let ghost w0 = self@;
        let n = self.ledger.len();
        let mut i: usize = 0;
        while i < n
            invariant
                i <= n,
                n == w0.ledger.len(),
                outcomes@.len() == n,
                self@ == spec_replay_upto(w0, outcomes@, i as int),
                self.wf(),
                w0.engine is Some,
            decreases n - i,
        {
            proof {
                lemma_replay_frame(w0, outcomes@, i as int);
            }
            let key = self.ledger.key_at(i);
            let c = match &self.engine {
                Some(e) => e.create_buffer_check(key, self.ledger.value_at(i)),
                None => {
                    proof {
                        assert(false);
                    }
                    Err(OpenalError::LibraryLoadFailed)
                },
            };
            match c {
                Err(e) => {
                    self.update_status_error(&e);
                },
                Ok(_) => {
                    match outcomes[i] {
                        Ok(h) => {
                            if h == 0 {
                                self.update_status_error(&OpenalError::InvalidBufferHandle);
                            } else {
                                match &mut self.engine {
                                    Some(e) => e.record_buffer(key, h),
                                    None => {},
                                }
                            }
                        },
                        Err(e) => {
                            self.update_status_error(&e);
                        },
                    }
                },
            }
            proof {
                assert(self@ =~= spec_replay_step(
                    spec_replay_upto(w0, outcomes@, i as int),
                    w0.ledger[i as int].0,
                    w0.ledger[i as int].1,
                    outcomes@[i as int],
                ));
            }
            i = i + 1;
        }
    }

    /// What the backend must be asked to do to restore the loop wish onto a
    /// rebuilt engine: `None` when there is no engine or no wish.
    pub fn replay_loop_plan(&self) -> (r: Option<(u32, PlayOneShotParams, LoopPlan)>)
        requires
            self.wf(),
        ensures
            r == (match self@.engine {
                Some(e) => match self@.loop_intent {
                    Some(li) => Some((li.0, li.1, spec_loop_plan(e, li.0))),
                    None => None::<(u32, PlayOneShotParams, LoopPlan)>,
                },
                None => None::<(u32, PlayOneShotParams, LoopPlan)>,
            }),
    {
        match &self.engine {
            Some(e) => match self.loop_intent {
                Some((k, p)) => Some((k, p, e.loop_plan(k))),
                None => None,
            },
            None => None,
        }
    }

    /// Records the outcome of restoring the loop during replay: the voice on
    /// success, a published error otherwise.
    pub fn replay_loop_finish(&mut self, key: BufferKey, outcome: Result<u32, OpenalError>)
        requires
            old(self).wf(),
            outcome matches Ok(_) ==> old(self)@.engine matches Some(e) && e.loop_source is None
                && e.sources.len() < e.max_sources,
        ensures
            final(self)@ == (match outcome {
                Ok(h) => spec_loop_recorded(old(self)@, key, h),
                Err(e) => spec_status_error(old(self)@, e),
            }),
            final(self).wf(),
    {
        match outcome {
            Ok(h) => {
                match &mut self.engine {
                    Some(e) => e.record_loop(key, h),
                    None => {},
                }
                proof {
                    assert(final(self)@ =~= spec_loop_recorded(old(self)@, key, h));
                }
            },
            Err(e) => self.update_status_error(&e),
        }
    }

    /// Tears the worker down for good: the engine is forgotten, its native
    /// handles are returned for deletion, and the worker is marked stopped.
    /// Calling it again changes nothing and returns `None`.
    pub fn shutdown(&mut self) -> (r: Option<TeardownPlan>)
        ensures
            final(self)@ == spec_shutdown(old(self)@),
            (match old(self)@.engine {
                Some(e) => r matches Some(t) && t.buffer_handles@ == e.buffers.map_values(
                    |p: (u32, u32)| p.1,
                ) && t.one_shot_handles@ == e.sources && t.loop_handle == spec_loop_handle(e),
                None => r is None,
            }),
            old(self).wf() ==> final(self).wf(),
    {
        self.stopped = true;
        proof {
            assert(self@ =~= (WorkerView { stopped: true, ..old(self)@ }));
        }
        self.detach_engine()
    }

    /// The live one-shot voices, for the owner to poll natively; `None`
    /// without an engine.
    pub fn one_shot_voices(&self) -> (r: Option<Vec<u32>>)
        ensures
            (match self@.engine {
                Some(e) => r matches Some(v) && v@ == e.sources,
                None => r is None,
            }),
    {
        match &self.engine {
            Some(e) => Some(e.one_shot_handles()),
            None => None,
        }
    }

    /// Drops the one-shot voices whose flag is set, after the owner polled
    /// each voice's native state and deleted the stopped ones.
    pub fn apply_cleanup(&mut self, stopped: &Vec<bool>)
        requires
            old(self).wf(),
            (match old(self)@.engine {
                Some(e) => stopped@.len() == e.sources.len(),
                None => true,
            }),
        ensures
            final(self)@ == spec_cleanup(old(self)@, stopped@),
            final(self).wf(),
    {
        match &mut self.engine {
            Some(e) => {
                e.apply_cleanup(stopped);
                proof {
                    assert(final(self)@ =~= spec_cleanup(old(self)@, stopped@));
                }
            },
            None => {
                proof {
                    assert(final(self)@ =~= spec_cleanup(old(self)@, stopped@));
                }
            },
        }
    }

    /// Re-reads the published buffer and voice counts from the live engine.
    pub fn refresh_counts(&mut self)
        requires
            old(self).wf(),
        ensures
            final(self)@ == spec_refresh_counts(old(self)@),
            final(self).wf(),
    {
        match &self.engine {
            Some(e) => {
                self.status.loaded_buffers = e.loaded_buffers();
                self.status.active_sources = e.active_sources();
                proof {
                    assert(final(self)@ =~= spec_refresh_counts(old(self)@));
                }
            },
            None => {
                proof {
                    assert(final(self)@ =~= spec_refresh_counts(old(self)@));
                }
            },
        }
    }
}

} // verus!
