use openal_runtime::data::{
    AudioRuntimeConfig, DecodedAudioMono16, EngineDiag, ListenerFrame, PlayOneShotParams,
};
use openal_runtime::engine::LoopPlan;
use openal_runtime::errors::OpenalError;
use openal_runtime::modes::{AudioRenderMode, DistanceModel};
use openal_runtime::runtime::WorkerState;

fn config(max_sources: usize) -> AudioRuntimeConfig {
    AudioRuntimeConfig {
        initial_render_mode: AudioRenderMode::Auto,
        distance_model: DistanceModel::InverseClamped,
        max_sources,
        preferred_device: None,
    }
}

fn diag() -> EngineDiag {
    EngineDiag {
        hrtf_active: false,
        output_mode: Some("stereo".to_string()),
        output_mode_raw: Some(0x1531),
    }
}

fn clip(n: usize) -> DecodedAudioMono16 {
    DecodedAudioMono16 {
        sample_rate_hz: 44100,
        samples: vec![0i16; n],
    }
}

/// A worker brought up with a live backend, as the worker thread does at start.
fn running_worker(max_sources: usize) -> WorkerState {
    let mut w = WorkerState::new(config(max_sources));
    w.construction_ok(diag());
    let outcomes: Vec<Result<u32, OpenalError>> = Vec::new();
    w.replay_buffers(&outcomes);
    w.update_status_ok();
    w
}

#[test]
fn initial_status_before_construction() {
    let w = WorkerState::new(config(8));
    let s = w.status_snapshot();
    assert!(!s.library_loaded);
    assert!(!s.device_open);
    assert!(!s.context_created);
    assert_eq!(s.render_mode, AudioRenderMode::Auto);
    assert_eq!(s.distance_model, DistanceModel::InverseClamped);
    assert_eq!(s.loaded_buffers, 0);
    assert_eq!(s.active_sources, 0);
    assert_eq!(s.last_error, None);
}

#[test]
fn construction_failure_publishes_error() {
    let mut w = WorkerState::new(config(8));
    w.construction_failed(&OpenalError::OpenDeviceFailed);
    let s = w.status_snapshot();
    assert!(!s.library_loaded);
    assert_eq!(s.last_error, Some("failed to open OpenAL device".to_string()));
    assert!(!w.has_engine());
}

#[test]
fn construction_success_publishes_diagnostics() {
    let w = running_worker(8);
    let s = w.status_snapshot();
    assert!(s.library_loaded && s.device_open && s.context_created);
    assert_eq!(s.output_mode, Some("stereo".to_string()));
    assert_eq!(s.output_mode_raw, Some(0x1531));
    assert_eq!(s.last_error, None);
}

#[test]
fn create_buffer_then_conflict() {
    let mut w = running_worker(8);
    let r = w.create_buffer_begin(1, clip(10));
    assert_eq!(r, Some(Ok((20, 44100))));
    w.create_buffer_finish(1, Ok(7));
    w.refresh_counts();
    assert_eq!(w.status_snapshot().loaded_buffers, 1);

    let r2 = w.create_buffer_begin(1, clip(4));
    assert_eq!(r2, Some(Err(OpenalError::BufferKeyExists(1))));
    w.create_buffer_finish(1, Err(OpenalError::BufferKeyExists(1)));
    w.refresh_counts();
    let s = w.status_snapshot();
    assert_eq!(s.loaded_buffers, 1);
    assert_eq!(
        s.last_error,
        Some("OpenAL buffer key already exists: 1".to_string())
    );
    // The ledger keeps one entry per key; the second request overwrote it.
    assert_eq!(w.ledger_len(), 1);
    assert_eq!(w.ledger_data_at(0).samples.len(), 4);
}

#[test]
fn listener_frame_is_cached_for_replay() {
    let mut w = running_worker(4);
    let frame = ListenerFrame {
        position: openal_runtime::data::Vec3Bits {
            x: 1.0f32.to_bits(),
            y: 2.0f32.to_bits(),
            z: 3.0f32.to_bits(),
        },
        ..ListenerFrame::default()
    };
    assert!(w.set_listener_begin(frame));
    w.set_listener_finish(Ok(()));
    // The frame survives even a failed forward, for the next rebuild.
    assert_eq!(w.listener(), frame);
    w.set_render_mode_begin(AudioRenderMode::StereoClean);
    w.construction_failed(&OpenalError::OpenDeviceFailed);
    assert_eq!(w.listener(), frame);
}

#[test]
fn create_buffer_rejects_oversized_data() {
    let mut w = running_worker(8);
    let big = DecodedAudioMono16 {
        sample_rate_hz: 2147483648,
        samples: Vec::new(),
    };
    let r = w.create_buffer_begin(2, big);
    assert_eq!(r, Some(Err(OpenalError::SampleRateTooLarge)));
}

#[test]
fn play_unknown_key_leaves_counts() {
    let mut w = running_worker(8);
    let r = w.play_one_shot_check(9);
    assert_eq!(r, Some(Err(OpenalError::BufferKeyMissing(9))));
    w.play_one_shot_finish(Err(OpenalError::BufferKeyMissing(9)));
    w.refresh_counts();
    let s = w.status_snapshot();
    assert_eq!(s.active_sources, 0);
    assert_eq!(s.last_error, Some("OpenAL buffer key missing: 9".to_string()));
}

#[test]
fn play_without_engine_is_dropped() {
    let w = WorkerState::new(config(8));
    assert_eq!(w.play_one_shot_check(1), None);
    assert_eq!(w.status_snapshot().last_error, None);
}

#[test]
fn capacity_is_enforced() {
    let mut w = running_worker(2);
    w.create_buffer_begin(1, clip(8));
    w.create_buffer_finish(1, Ok(7));

    let first = w.play_one_shot_check(1).unwrap().unwrap();
    assert_eq!(first, 7);
    w.play_one_shot_finish(Ok(101));
    let second = w.play_one_shot_check(1).unwrap().unwrap();
    assert_eq!(second, 7);
    w.play_one_shot_finish(Ok(102));

    let third = w.play_one_shot_check(1).unwrap();
    assert_eq!(third, Err(OpenalError::SourceLimitReached));
    w.play_one_shot_finish(Err(OpenalError::SourceLimitReached));

    w.refresh_counts();
    let s = w.status_snapshot();
    assert_eq!(s.active_sources, 2);
    assert_eq!(s.last_error, Some("OpenAL source limit reached".to_string()));
}

fn sine_440hz_1s() -> DecodedAudioMono16 {
    let rate = 44100u32;
    let mut samples = Vec::with_capacity(rate as usize);
    let step = std::f32::consts::TAU * 440.0 / rate as f32;
    for i in 0..rate as usize {
        samples.push(((i as f32 * step).sin() * 0.5 * i16::MAX as f32) as i16);
    }
    DecodedAudioMono16 {
        sample_rate_hz: rate,
        samples,
    }
}

#[test]
fn one_shot_lifecycle_with_cleanup() {
    let mut w = running_worker(1);
    w.create_buffer_begin(1, sine_440hz_1s());
    w.create_buffer_finish(1, Ok(7));

    assert_eq!(w.play_one_shot_check(1), Some(Ok(7)));
    w.play_one_shot_finish(Ok(55));
    w.refresh_counts();
    assert_eq!(w.status_snapshot().active_sources, 1);

    // The clip runs out; a poll reports the voice stopped and reclaims it.
    let voices = w.one_shot_voices().unwrap();
    assert_eq!(voices, vec![55]);
    w.apply_cleanup(&vec![true]);
    w.refresh_counts();
    assert_eq!(w.status_snapshot().active_sources, 0);
}

#[test]
fn cleanup_keeps_running_voices() {
    let mut w = running_worker(4);
    w.create_buffer_begin(1, clip(8));
    w.create_buffer_finish(1, Ok(7));
    for handle in [201, 202, 203] {
        assert!(w.play_one_shot_check(1).unwrap().is_ok());
        w.play_one_shot_finish(Ok(handle));
    }
    w.apply_cleanup(&vec![true, false, true]);
    assert_eq!(w.one_shot_voices().unwrap(), vec![202]);
}

#[test]
fn switch_loop_between_buffers() {
    let mut w = running_worker(4);
    w.create_buffer_begin(1, clip(8));
    w.create_buffer_finish(1, Ok(7));
    w.create_buffer_begin(2, clip(8));
    w.create_buffer_finish(2, Ok(8));

    let p1 = PlayOneShotParams::default();
    let plan = w.start_loop_begin(1, p1).unwrap();
    assert_eq!(plan, LoopPlan::Start { buffer: 7 });
    w.loop_start_finish(1, Ok(50));
    w.refresh_counts();
    assert_eq!(w.status_snapshot().active_sources, 1);

    let p2 = PlayOneShotParams {
        gain_bits: 0x3F00_0000,
        ..PlayOneShotParams::default()
    };
    let plan2 = w.start_loop_begin(2, p2).unwrap();
    assert_eq!(
        plan2,
        LoopPlan::StopThenStart {
            old_source: 50,
            buffer: 8
        }
    );
    w.loop_removed();
    w.loop_start_finish(2, Ok(51));
    w.refresh_counts();
    let s = w.status_snapshot();
    assert_eq!(s.active_sources, 1);
    assert_eq!(s.last_error, None);
}

#[test]
fn restart_loop_same_key_updates_in_place() {
    let mut w = running_worker(4);
    w.create_buffer_begin(1, clip(8));
    w.create_buffer_finish(1, Ok(7));
    let plan = w.start_loop_begin(1, PlayOneShotParams::default()).unwrap();
    assert_eq!(plan, LoopPlan::Start { buffer: 7 });
    w.loop_start_finish(1, Ok(50));

    let plan2 = w.start_loop_begin(1, PlayOneShotParams::default()).unwrap();
    assert_eq!(
        plan2,
        LoopPlan::UpdateInPlace {
            source: 50,
            buffer: 7
        }
    );
    w.loop_update_finish(Ok(()));
    w.refresh_counts();
    assert_eq!(w.status_snapshot().active_sources, 1);
}

#[test]
fn stop_loop_without_loop_changes_nothing() {
    let mut w = running_worker(4);
    w.refresh_counts();
    let before = w.status_snapshot();
    let r = w.stop_loop_begin();
    assert_eq!(r, Some(None));
    w.stop_loop_finish();
    w.refresh_counts();
    assert_eq!(w.status_snapshot(), before);
}

#[test]
fn stop_loop_deletes_voice() {
    let mut w = running_worker(4);
    w.create_buffer_begin(1, clip(8));
    w.create_buffer_finish(1, Ok(7));
    w.start_loop_begin(1, PlayOneShotParams::default());
    w.loop_start_finish(1, Ok(50));

    let r = w.stop_loop_begin();
    assert_eq!(r, Some(Some(50)));
    w.stop_loop_finish();
    w.refresh_counts();
    assert_eq!(w.status_snapshot().active_sources, 0);
}

#[test]
fn recreation_replays_ledger_and_loop() {
    let mut w = running_worker(4);
    w.create_buffer_begin(1, clip(8));
    w.create_buffer_finish(1, Ok(7));
    w.create_buffer_begin(2, clip(16));
    w.create_buffer_finish(2, Ok(8));
    w.start_loop_begin(1, PlayOneShotParams::default());
    w.loop_start_finish(1, Ok(50));

    // Switching the render mode tears the backend down and rebuilds it.
    let teardown = w.set_render_mode_begin(AudioRenderMode::HeadphonesHrtf).unwrap();
    assert_eq!(teardown.buffer_handles, vec![7, 8]);
    assert_eq!(teardown.loop_handle, Some(50));
    assert!(!w.has_engine());

    w.construction_ok(diag());
    let mut outcomes: Vec<Result<u32, OpenalError>> = Vec::new();
    for i in 0..w.ledger_len() {
        assert!(w.replay_upload_check(i).is_ok());
        outcomes.push(Ok(20 + i as u32));
    }
    w.replay_buffers(&outcomes);

    let (key, _params, plan) = w.replay_loop_plan().unwrap();
    assert_eq!(key, 1);
    assert_eq!(plan, LoopPlan::Start { buffer: 20 });
    w.replay_loop_finish(key, Ok(60));
    w.update_status_ok();
    w.refresh_counts();

    let s = w.status_snapshot();
    assert_eq!(s.render_mode, AudioRenderMode::HeadphonesHrtf);
    assert_eq!(s.loaded_buffers, 2);
    assert_eq!(s.active_sources, 1);
    assert_eq!(s.last_error, None);
}

#[test]
fn recreation_with_failed_upload_publishes_error() {
    let mut w = running_worker(4);
    w.create_buffer_begin(1, clip(8));
    w.create_buffer_finish(1, Ok(7));
    w.create_buffer_begin(2, clip(16));
    w.create_buffer_finish(2, Ok(8));

    w.set_render_mode_begin(AudioRenderMode::StereoClean);
    w.construction_ok(diag());
    let outcomes: Vec<Result<u32, OpenalError>> = vec![
        Ok(21),
        Err(OpenalError::AlError("alBufferData")),
    ];
    w.replay_buffers(&outcomes);
    w.refresh_counts();
    let s = w.status_snapshot();
    assert_eq!(s.loaded_buffers, 1);
    assert_eq!(
        s.last_error,
        Some("OpenAL operation failed: alBufferData".to_string())
    );
}

#[test]
fn recreation_failure_keeps_worker_alive() {
    let mut w = running_worker(4);
    w.create_buffer_begin(1, clip(8));
    w.create_buffer_finish(1, Ok(7));
    w.set_render_mode_begin(AudioRenderMode::SurroundAuto);
    w.construction_failed(&OpenalError::CreateContextFailed);
    let s = w.status_snapshot();
    assert_eq!(
        s.last_error,
        Some("failed to create OpenAL context".to_string())
    );
    assert!(!w.has_engine());
    assert!(!w.is_stopped());
    // The ledger survives for the next attempt.
    assert_eq!(w.ledger_len(), 1);
}

#[test]
fn shutdown_is_idempotent() {
    let mut w = running_worker(4);
    w.create_buffer_begin(1, clip(8));
    w.create_buffer_finish(1, Ok(7));

    let first = w.shutdown();
    assert!(first.is_some());
    assert!(w.is_stopped());
    let after_once = w.status_snapshot();

    let second = w.shutdown();
    assert!(second.is_none());
    assert!(w.is_stopped());
    assert_eq!(w.status_snapshot(), after_once);
}

#[test]
fn set_muted_roundtrip() {
    let mut w = running_worker(4);
    assert!(w.set_muted_begin(true));
    w.set_muted_finish(Ok(()));
    assert!(w.status_snapshot().muted);
    assert!(w.set_muted_begin(false));
    w.set_muted_finish(Ok(()));
    assert!(!w.status_snapshot().muted);
}

#[test]
fn set_distance_model_applies_on_success() {
    let mut w = running_worker(4);
    assert!(w.set_distance_model_begin(DistanceModel::Linear));
    w.set_distance_model_finish(Ok(()));
    assert_eq!(w.status_snapshot().distance_model, DistanceModel::Linear);
}

#[test]
fn set_listener_failure_is_published() {
    let mut w = running_worker(4);
    assert!(w.set_listener_begin(ListenerFrame::default()));
    w.set_listener_finish(Err(OpenalError::AlError("alListener3f")));
    assert_eq!(
        w.status_snapshot().last_error,
        Some("OpenAL operation failed: alListener3f".to_string())
    );
}

#[test]
fn errors_are_cleared_by_next_success() {
    let mut w = running_worker(4);
    w.play_one_shot_check(9);
    w.play_one_shot_finish(Err(OpenalError::BufferKeyMissing(9)));
    assert!(w.status_snapshot().last_error.is_some());
    assert!(w.set_muted_begin(false));
    w.set_muted_finish(Ok(()));
    assert_eq!(w.status_snapshot().last_error, None);
}
