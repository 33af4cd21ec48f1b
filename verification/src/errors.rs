//! The error taxonomy shared by the runtime and its backend, and the exact
//! text each error is published as.

use vstd::prelude::*;

verus! {

use vstd::string::StringExecFns;
use crate::text::{dec_str, u32_dec};

/// Everything that can go wrong between the runtime and the native backend.
#[derive(Debug, Copy, Clone, PartialEq, Eq)]
pub enum OpenalError {
    /// The backend's shared library could not be loaded.
    LibraryLoadFailed,
    /// A required entry point was missing from the loaded library.
    MissingSymbol(&'static str),
    /// The output device could not be opened.
    OpenDeviceFailed,
    /// The rendering context could not be created.
    CreateContextFailed,
    /// The rendering context could not be made current.
    MakeContextCurrentFailed,
    /// A named backend call reported an error code.
    AlError(&'static str),
    /// A buffer already exists under this key.
    BufferKeyExists(u32),
    /// No buffer exists under this key.
    BufferKeyMissing(u32),
    /// The sample data would overflow the backend's 32-bit sizes.
    BufferDataTooLarge,
    /// The sample rate would overflow the backend's 32-bit sizes.
    SampleRateTooLarge,
    /// The backend handed back a zero buffer handle.
    InvalidBufferHandle,
    /// The backend handed back a zero voice handle.
    InvalidSourceHandle,
    /// The voice pool is at capacity.
    SourceLimitReached,
}

/// The text that `OpenalError::message` renders each error as.
pub open spec fn error_text(e: OpenalError) -> Seq<char> {
    match e {
        OpenalError::LibraryLoadFailed => "failed to load OpenAL library"@,
        OpenalError::MissingSymbol(s) => "missing required OpenAL symbol: "@ + s@,
        OpenalError::OpenDeviceFailed => "failed to open OpenAL device"@,
        OpenalError::CreateContextFailed => "failed to create OpenAL context"@,
        OpenalError::MakeContextCurrentFailed => "failed to make OpenAL context current"@,
        OpenalError::AlError(op) => "OpenAL operation failed: "@ + op@,
        OpenalError::BufferKeyExists(k) => "OpenAL buffer key already exists: "@ + dec_str(k),
        OpenalError::BufferKeyMissing(k) => "OpenAL buffer key missing: "@ + dec_str(k),
        OpenalError::BufferDataTooLarge => "OpenAL buffer data exceeds 32-bit limits"@,
        OpenalError::SampleRateTooLarge => "OpenAL sample rate exceeds 32-bit limits"@,
        OpenalError::InvalidBufferHandle => "OpenAL returned an invalid buffer handle"@,
        OpenalError::InvalidSourceHandle => "OpenAL returned an invalid source handle"@,
        OpenalError::SourceLimitReached => "OpenAL source limit reached"@,
    }
}

impl OpenalError {
    /// The error rendered as the text that status readers see.
    pub fn message(&self) -> (r: String)
        ensures
            r@ == error_text(*self),
    {
        match self {
            OpenalError::LibraryLoadFailed => String::from_str("failed to load OpenAL library"),
            OpenalError::MissingSymbol(s) => {
                let mut m = String::from_str("missing required OpenAL symbol: ");
                m.append(s);
                m
            },
            OpenalError::OpenDeviceFailed => String::from_str("failed to open OpenAL device"),
            OpenalError::CreateContextFailed => String::from_str(
                "failed to create OpenAL context",
            ),
            OpenalError::MakeContextCurrentFailed => String::from_str(
                "failed to make OpenAL context current",
            ),
            OpenalError::AlError(op) => {
                let mut m = String::from_str("OpenAL operation failed: ");
                m.append(op);
                m
            },
            OpenalError::BufferKeyExists(k) => {
                let mut m = String::from_str("OpenAL buffer key already exists: ");
                let d = u32_dec(*k);
                m.append(d.as_str());
                m
            },
            OpenalError::BufferKeyMissing(k) => {
                let mut m = String::from_str("OpenAL buffer key missing: ");
                let d = u32_dec(*k);
                m.append(d.as_str());
                m
            },
            OpenalError::BufferDataTooLarge => String::from_str(
                "OpenAL buffer data exceeds 32-bit limits",
            ),
            OpenalError::SampleRateTooLarge => String::from_str(
                "OpenAL sample rate exceeds 32-bit limits",
            ),
            OpenalError::InvalidBufferHandle => String::from_str(
                "OpenAL returned an invalid buffer handle",
            ),
            OpenalError::InvalidSourceHandle => String::from_str(
                "OpenAL returned an invalid source handle",
            ),
            OpenalError::SourceLimitReached => String::from_str("OpenAL source limit reached"),
        }
    }
}

/// Why a facade call could not reach the worker.
#[derive(Debug, Copy, Clone, Eq, PartialEq, Structural)]
pub enum RuntimeError {
    /// The runtime could not be brought up at all.
    NotAvailable,
    /// The worker thread is no longer receiving commands.
    ThreadStopped,
}

/// The text that `RuntimeError::message` renders each error as.
pub open spec fn runtime_error_text(e: RuntimeError) -> Seq<char> {
    match e {
        RuntimeError::NotAvailable => "audio runtime is not available"@,
        RuntimeError::ThreadStopped => "audio runtime thread stopped unexpectedly"@,
    }
}

impl RuntimeError {
    /// The error rendered as text.
    pub fn message(&self) -> (r: String)
        ensures
            r@ == runtime_error_text(*self),
    {
        match self {
            RuntimeError::NotAvailable => String::from_str("audio runtime is not available"),
            RuntimeError::ThreadStopped => String::from_str(
                "audio runtime thread stopped unexpectedly",
            ),
        }
    }
}

} // verus!
