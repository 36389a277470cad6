//! Decision logic of the background agent that keeps a remote-access client
//! in sync with its coordination server: heartbeat endpoint resolution,
//! sysinfo upload bookkeeping, content fingerprints, reply interpretation, the
//! merge of server-pushed options, and the disconnect signal bus.
pub mod bus;
pub mod fingerprint;
pub mod options;
pub mod sync;
pub mod text;
pub mod upload;
