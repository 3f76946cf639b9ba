//! Orchestration of a remote-pairing session bootstrap and of the discovery
//! of a pairing-capable device's host name.
//!
//! The library decides; the caller performs. Each flow is a small machine that
//! is handed the outcome of the last piece of outside work (a connect, a file
//! write, a discovery poll) and answers with the next piece of work to do.
pub mod credential;
pub mod discovery;
pub mod session;
pub mod text;
