//! The properties the runtime promises, proved over the worker's spec
//! transitions: buffer creation and key conflicts, best-effort playback,
//! idempotent teardown, recreation replay, pool capacity, and loop
//! switching.

use vstd::prelude::*;

verus! {

use crate::data::AudioView;
use crate::engine::{
    engine_occupied, spec_create_buffer_check, spec_loop_plan, spec_play_check, EngineView,
    LoopPlan,
};
use crate::errors::{error_text, OpenalError};
use crate::keymap::{assoc_at, assoc_distinct, assoc_has, assoc_keys};
use crate::modes::AudioRenderMode;
use crate::runtime::{
    fresh_engine_view, spec_buffer_recorded, spec_detach, spec_ledger_insert, spec_loop_cleared,
    spec_loop_recorded, spec_one_shot_recorded, spec_record_error, spec_refresh_counts,
    lemma_replay_frame, spec_replay, spec_replay_upto, spec_shutdown, spec_status_error,
    spec_status_ok, spec_stop_loop_begin, worker_wf, WorkerView,
};

/// Creating a buffer under a fresh key, once the backend accepts the upload,
/// raises the published buffer count by exactly one; a second creation under
/// the same key is refused with a key-conflict error in the sticky error,
/// and the count does not move.
pub proof fn law_create_then_conflict(
    w: WorkerView,
    key: u32,
    data: AudioView,
    data2: AudioView,
    handle: u32,
)
    requires
        worker_wf(w),
        w.engine matches Some(e) && !assoc_has(e.buffers, key) && e.buffers.len() < usize::MAX,
        spec_create_buffer_check(w.engine->0, key, data) is Ok,
    ensures
        ({
            // The first request: ledger entry, recorded buffer, published success.
            let w1 = spec_status_ok(
                spec_buffer_recorded(
                    (WorkerView { ledger: spec_ledger_insert(w.ledger, key, data), ..w }),
                    key,
                    handle,
                ),
            );
            // The second request under the same key is refused before any upload.
            let check2 = spec_create_buffer_check(w1.engine->0, key, data2);
            let w2 = spec_status_error(
                (WorkerView { ledger: spec_ledger_insert(w1.ledger, key, data2), ..w1 }),
                OpenalError::BufferKeyExists(key),
            );
            &&& spec_refresh_counts(w1).status.loaded_buffers == spec_refresh_counts(
                w,
            ).status.loaded_buffers + 1
            &&& check2 == Err::<(i32, i32), OpenalError>(OpenalError::BufferKeyExists(key))
            &&& w2.status.last_error == Some(error_text(OpenalError::BufferKeyExists(key)))
            &&& w2.engine == w1.engine
            &&& spec_refresh_counts(w2).status.loaded_buffers == spec_refresh_counts(
                w1,
            ).status.loaded_buffers
        }),
{
    let e = w.engine->0;
    let w1 = spec_status_ok(
        spec_buffer_recorded(
            (WorkerView { ledger: spec_ledger_insert(w.ledger, key, data), ..w }),
            key,
            handle,
        ),
    );
    assert(w1.engine->0.buffers == e.buffers.push((key, handle)));
    assert(w1.engine->0.buffers[e.buffers.len() as int].0 == key);
    assert(assoc_has(w1.engine->0.buffers, key));
}

/// A one-shot request for a key no buffer carries creates no voice, in any
/// state: the bookkeeping rejects it (as a missing key, or as a full pool
/// when that is checked first), the refusal lands in the sticky error, and
/// the published voice count is what it was.
pub proof fn law_play_unknown_key(w: WorkerView, key: u32)
    requires
        worker_wf(w),
        w.engine matches Some(e) && !assoc_has(e.buffers, key),
    ensures
        ({
            let refusal = if engine_occupied(w.engine->0) >= w.engine->0.max_sources {
                OpenalError::SourceLimitReached
            } else {
                OpenalError::BufferKeyMissing(key)
            };
            let w1 = spec_record_error(w, refusal);
            &&& spec_play_check(w.engine->0, key) == Err::<u32, OpenalError>(refusal)
            &&& w1.engine == w.engine
            &&& w1.status.last_error == Some(error_text(refusal))
            &&& spec_refresh_counts(w1).status.active_sources == spec_refresh_counts(
                w,
            ).status.active_sources
        }),
{
}

/// Tearing the worker down twice ends in exactly the state one teardown
/// ends in.
pub proof fn law_shutdown_idempotent(w: WorkerView)
    ensures
        spec_shutdown(spec_shutdown(w)) == spec_shutdown(w),
{
    assert(spec_shutdown(spec_shutdown(w)) =~= spec_shutdown(w));
}

/// Stopping the loop when none plays changes no bookkeeping: the wish and
/// the loop slot were already clear. The published snapshot is re-issued as
/// a success; when the mirror already shows that snapshot, the whole state
/// is unchanged.
pub proof fn law_stop_loop_without_loop(w: WorkerView)
    requires
        w.loop_intent is None,
        (match w.engine {
            Some(e) => e.loop_source is None,
            None => true,
        }),
    ensures
        spec_stop_loop_begin(w) == w,
        spec_status_ok(w).engine == w.engine,
        spec_status_ok(w).ledger == w.ledger,
        spec_status_ok(w).loop_intent == w.loop_intent,
        w.status == spec_status_ok(w).status ==> spec_status_ok(spec_stop_loop_begin(w)) == w,
{
    assert(spec_loop_cleared(w) =~= w);
    assert(spec_stop_loop_begin(w) =~= w);
    if w.status == spec_status_ok(w).status {
        assert(spec_status_ok(w) =~= w);
    }
}

/// All sizes in a clip fit the backend's 32-bit widths.
pub open spec fn clip_fits(data: AudioView) -> bool {
    data.samples.len() * 2 <= i32::MAX && data.sample_rate_hz <= i32::MAX
}

/// Replaying a ledger of well-sized clips onto a fresh engine, with the
/// backend accepting every upload, restores exactly the ledger's buffers,
/// key for key and in order, and publishes no error along the way.
pub proof fn lemma_replay_all_accepted(
    w: WorkerView,
    outcomes: Seq<Result<u32, OpenalError>>,
    n: int,
)
    requires
        assoc_distinct(w.ledger),
        w.engine matches Some(e) && e.buffers == Seq::<(u32, u32)>::empty(),
        0 <= n <= w.ledger.len(),
        outcomes.len() == w.ledger.len(),
        forall|i: int| 0 <= i < n ==> clip_fits((#[trigger] w.ledger[i]).1),
        forall|i: int| 0 <= i < n ==> ((#[trigger] outcomes[i]) matches Ok(h) && h != 0),
    ensures
        ({
            let r = spec_replay_upto(w, outcomes, n);
            &&& r.engine is Some
            &&& r.engine->0.buffers.len() == n
            &&& (forall|i: int|
                0 <= i < n ==> (#[trigger] r.engine->0.buffers[i]) == (
                w.ledger[i].0,
                outcomes[i]->Ok_0,
                ))
            &&& r.status == w.status
        }),
    decreases n,
{
    if n > 0 {
        lemma_replay_all_accepted(w, outcomes, n - 1);
        let prev = spec_replay_upto(w, outcomes, n - 1);
        let key = w.ledger[n - 1].0;
        assert forall|j: int| 0 <= j < prev.engine->0.buffers.len() implies (
        #[trigger] prev.engine->0.buffers[j]).0 != key by {
            assert(prev.engine->0.buffers[j].0 == w.ledger[j].0);
            assert(w.ledger[j].0 != w.ledger[n - 1].0);
        }
        assert(!assoc_has(prev.engine->0.buffers, key));
        assert(spec_create_buffer_check(prev.engine->0, key, w.ledger[n - 1].1) is Ok);
    }
}

/// Recreation replay: after a render-mode change whose construction and
/// uploads all succeed, every ledger buffer exists again under its key, the
/// loop wish is restored on its old key with its old parameters, and the
/// published snapshot shows the full buffer count, the single loop voice,
/// and no error; the caller re-issued nothing.
pub proof fn law_recreation_replay(
    w: WorkerView,
    mode: AudioRenderMode,
    hrtf_active: bool,
    output_mode: Option<Seq<char>>,
    output_mode_raw: Option<i32>,
    outcomes: Seq<Result<u32, OpenalError>>,
    loop_handle: u32,
)
    requires
        worker_wf(w),
        w.ledger.len() < usize::MAX,
        forall|i: int| 0 <= i < w.ledger.len() ==> clip_fits((#[trigger] w.ledger[i]).1),
        outcomes.len() == w.ledger.len(),
        forall|i: int|
            0 <= i < outcomes.len() ==> ((#[trigger] outcomes[i]) matches Ok(h) && h != 0),
        w.loop_intent matches Some(li) && assoc_has(w.ledger, li.0),
        w.max_sources >= 1,
    ensures
        ({
            // The recreation sequence: adopt the mode, drop the old engine,
            // adopt a fresh one, replay every buffer, then the loop wish,
            // publish success, refresh the counts.
            let w1 = spec_detach((WorkerView { render_mode: mode, ..w }));
            let w2 = WorkerView {
                engine: Some(
                    fresh_engine_view(w1, hrtf_active, output_mode, output_mode_raw),
                ),
                ..w1
            };
            let w3 = spec_replay(w2, outcomes);
            let key = (w.loop_intent->0).0;
            let w4 = spec_loop_recorded(w3, key, loop_handle);
            let w5 = spec_refresh_counts(spec_status_ok(w4));
            &&& w3.engine is Some
            &&& assoc_keys(w3.engine->0.buffers) == assoc_keys(w.ledger)
            &&& (spec_loop_plan(w3.engine->0, key) matches LoopPlan::Start { buffer }
                && buffer == assoc_at(w3.engine->0.buffers, key))
            &&& w4.engine->0.loop_source == Some((key, loop_handle))
            &&& w4.loop_intent == w.loop_intent
            &&& w5.status.loaded_buffers == w.ledger.len()
            &&& w5.status.active_sources == 1
            &&& w5.status.last_error is None
        }),
{
    let w1 = spec_detach((WorkerView { render_mode: mode, ..w }));
    let w2 = WorkerView {
        engine: Some(fresh_engine_view(w1, hrtf_active, output_mode, output_mode_raw)),
        ..w1
    };
    let w3 = spec_replay(w2, outcomes);
    lemma_replay_all_accepted(w2, outcomes, w2.ledger.len() as int);
    lemma_replay_frame(w2, outcomes, w2.ledger.len() as int);
    assert(w3.engine->0.sources == w2.engine->0.sources);
    assert(assoc_keys(w3.engine->0.buffers) =~= assoc_keys(w.ledger));
    let key = (w.loop_intent->0).0;
    let i = choose|i: int| 0 <= i < w.ledger.len() && (#[trigger] w.ledger[i]).0 == key;
    assert(w.ledger[i].0 == key);
    assert(w3.engine->0.buffers[i].0 == key);
    assert(assoc_has(w3.engine->0.buffers, key));
    let w4 = spec_loop_recorded(w3, key, loop_handle);
    assert(engine_occupied(w4.engine->0) == 1);
    assert(spec_refresh_counts(spec_status_ok(w4)).status.loaded_buffers == w.ledger.len());
}

/// `n` one-shot voices recorded in sequence.
pub open spec fn spec_plays(w: WorkerView, handles: Seq<u32>, n: int) -> WorkerView
    decreases n,
{
    if n <= 0 {
        w
    } else {
        spec_one_shot_recorded(spec_plays(w, handles, n - 1), handles[n - 1])
    }
}

proof fn lemma_plays_shape(w: WorkerView, handles: Seq<u32>, n: int)
    requires
        w.engine is Some,
        0 <= n <= handles.len(),
    ensures
        ({
            let r = spec_plays(w, handles, n);
            &&& r.engine is Some
            &&& r.engine->0 == (EngineView { sources: w.engine->0.sources + handles.take(n), ..w.engine->0 })
            &&& r.status == w.status
            &&& r.ledger == w.ledger
        }),
    decreases n,
{
    if n <= 0 {
        assert(w.engine->0.sources + handles.take(0) =~= w.engine->0.sources);
        assert((EngineView { sources: w.engine->0.sources + handles.take(0), ..w.engine->0 })
            =~= w.engine->0);
    } else {
        lemma_plays_shape(w, handles, n - 1);
        assert((w.engine->0.sources + handles.take(n - 1)).push(handles[n - 1])
            =~= w.engine->0.sources + handles.take(n));
    }
}

/// Capacity: from an empty pool of size `max_sources` and a known key, every
/// one of the first `max_sources` one-shot requests is admitted; once they
/// all start, the pool holds exactly `max_sources` voices, the next request
/// is refused as over capacity, the refusal lands in the sticky error, and
/// the count stays at `max_sources`.
pub proof fn law_capacity(w: WorkerView, key: u32, handles: Seq<u32>)
    requires
        worker_wf(w),
        w.engine matches Some(e) && e.loop_source is None && e.sources
            == Seq::<u32>::empty() && assoc_has(e.buffers, key),
        handles.len() == w.engine->0.max_sources,
    ensures
        forall|n: int|
            0 <= n < handles.len() ==> spec_play_check(
                #[trigger] spec_plays(w, handles, n).engine->0,
                key,
            ) is Ok,
        ({
            let full = spec_plays(w, handles, handles.len() as int);
            let refused = spec_record_error(full, OpenalError::SourceLimitReached);
            &&& engine_occupied(full.engine->0) == handles.len()
            &&& spec_play_check(full.engine->0, key) == Err::<u32, OpenalError>(
                OpenalError::SourceLimitReached,
            )
            &&& refused.status.last_error == Some(error_text(OpenalError::SourceLimitReached))
            &&& spec_refresh_counts(refused).status.active_sources == handles.len()
        }),
{
    assert forall|n: int|
        0 <= n < handles.len() implies spec_play_check(
        #[trigger] spec_plays(w, handles, n).engine->0,
        key,
    ) is Ok by {
        lemma_plays_shape(w, handles, n);
        assert(spec_plays(w, handles, n).engine->0.sources.len() == n);
    }
    lemma_plays_shape(w, handles, handles.len() as int);
    let full = spec_plays(w, handles, handles.len() as int);
    assert(full.engine->0.sources.len() == handles.len());
}

/// Switching the loop to another buffer: the plan names the old voice for
/// stopping and deletion, and once the fresh voice starts, exactly one loop
/// voice exists, bound to the new key, with the new parameters recorded as
/// the wish a rebuild would replay.
pub proof fn law_switch_loop(
    w: WorkerView,
    b: u32,
    params: crate::data::PlayOneShotParams,
    new_handle: u32,
)
    requires
        worker_wf(w),
        w.engine matches Some(e) && e.loop_source is Some && assoc_has(e.buffers, b)
            && (e.loop_source->0).0 != b && e.sources.len() < e.max_sources,
    ensures
        spec_loop_plan(w.engine->0, b) == (LoopPlan::StopThenStart {
            old_source: (w.engine->0.loop_source->0).1,
            buffer: assoc_at(w.engine->0.buffers, b),
        }),
        ({
            let w1 = spec_loop_cleared((WorkerView { loop_intent: Some((b, params)), ..w }));
            let w2 = spec_status_ok(spec_loop_recorded(w1, b, new_handle));
            &&& w2.engine->0.loop_source == Some((b, new_handle))
            &&& engine_occupied(w2.engine->0) == w.engine->0.sources.len() + 1
            &&& w2.loop_intent == Some((b, params))
        }),
{
}

} // verus!
