//! Edit-session synchronization engine for editing remote object-storage
//! resources through a local working copy.
//!
//! The library owns the logic of one edit session: parsing object URIs,
//! coalescing bursts of filesystem change notifications into sparse flush
//! signals (trailing-edge debouncing), and driving the session state
//! machine from the initial download through editing to a clean shutdown.
//! The surrounding binary performs the actual I/O (storage backends, the
//! filesystem watcher, the editor process) and feeds its outcomes back in
//! as events.

pub mod debounce;
pub mod session;
pub mod uri;
