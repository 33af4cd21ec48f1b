use openal_runtime::decode::downmix_to_mono_i16;
use openal_runtime::errors::{OpenalError, RuntimeError};

#[test]
fn downmix_passes_mono_through() {
    let samples = vec![1i16, -2, 3, -4];
    assert_eq!(downmix_to_mono_i16(samples.clone(), 1), samples);
    let copy = vec![7i16];
    assert_eq!(downmix_to_mono_i16(copy.clone(), 0), copy);
}

#[test]
fn downmix_averages_stereo_frames() {
    let samples = vec![100i16, 200, 300, 400];
    assert_eq!(downmix_to_mono_i16(samples, 2), vec![150i16, 350]);
}

#[test]
fn downmix_truncates_toward_zero() {
    // -3 / 2 must be -1, not -2.
    assert_eq!(downmix_to_mono_i16(vec![-3i16, 0], 2), vec![-1i16]);
    assert_eq!(downmix_to_mono_i16(vec![3i16, 0], 2), vec![1i16]);
}

#[test]
fn downmix_drops_trailing_partial_frame() {
    assert_eq!(downmix_to_mono_i16(vec![1i16, 3, 5], 2), vec![2i16]);
}

#[test]
fn downmix_three_channels() {
    let samples = vec![300i16, 600, 900, -300, -600, -900];
    assert_eq!(downmix_to_mono_i16(samples, 3), vec![600i16, -600]);
}

#[test]
fn openal_error_messages() {
    assert_eq!(
        OpenalError::LibraryLoadFailed.message(),
        "failed to load OpenAL library"
    );
    assert_eq!(
        OpenalError::MissingSymbol("alGenBuffers").message(),
        "missing required OpenAL symbol: alGenBuffers"
    );
    assert_eq!(
        OpenalError::OpenDeviceFailed.message(),
        "failed to open OpenAL device"
    );
    assert_eq!(
        OpenalError::CreateContextFailed.message(),
        "failed to create OpenAL context"
    );
    assert_eq!(
        OpenalError::MakeContextCurrentFailed.message(),
        "failed to make OpenAL context current"
    );
    assert_eq!(
        OpenalError::AlError("alSourcePlay").message(),
        "OpenAL operation failed: alSourcePlay"
    );
    assert_eq!(
        OpenalError::BufferKeyExists(42).message(),
        "OpenAL buffer key already exists: 42"
    );
    assert_eq!(
        OpenalError::BufferKeyMissing(4294967295).message(),
        "OpenAL buffer key missing: 4294967295"
    );
    assert_eq!(
        OpenalError::BufferDataTooLarge.message(),
        "OpenAL buffer data exceeds 32-bit limits"
    );
    assert_eq!(
        OpenalError::SampleRateTooLarge.message(),
        "OpenAL sample rate exceeds 32-bit limits"
    );
    assert_eq!(
        OpenalError::InvalidBufferHandle.message(),
        "OpenAL returned an invalid buffer handle"
    );
    assert_eq!(
        OpenalError::InvalidSourceHandle.message(),
        "OpenAL returned an invalid source handle"
    );
    assert_eq!(
        OpenalError::SourceLimitReached.message(),
        "OpenAL source limit reached"
    );
}

#[test]
fn runtime_error_messages() {
    assert_eq!(
        RuntimeError::NotAvailable.message(),
        "audio runtime is not available"
    );
    assert_eq!(
        RuntimeError::ThreadStopped.message(),
        "audio runtime thread stopped unexpectedly"
    );
}
