//! A verified core for a resource-bounded 3-D audio runtime: one worker owns
//! an opaque native sound backend, serializes all mutation through a command
//! queue, keeps a replayable ledger of every loaded clip and the active loop
//! so the backend can be torn down and rebuilt transparently, and publishes
//! a consistent status snapshot for readers.
//!
//! Everything the backend must be asked to do is decided here and returned
//! to the caller as plain data; the caller performs the native calls and
//! reports each outcome back. The surrounding process supplies the thread,
//! the queue and the native bindings.

pub mod data;
pub mod decode;
pub mod engine;
pub mod errors;
pub mod keymap;
pub mod laws;
pub mod modes;
pub mod runtime;
pub mod text;
