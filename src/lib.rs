//! Chain-event ingest pipeline.
//!
//! A source stage normalises raw tip events of a chain-sync node into chain
//! events (`chain_event`, `source`) and publishes them on a bounded, ordered
//! channel (`channel`); a sink stage applies them idempotently to its
//! persisted state and cursor (`sink`). Each stage runs a lifecycle whose
//! failures go through a retry/backoff policy (`retry`, `runtime`), and a
//! supervisor stops the pipeline when a stage fails fatally (`supervisor`).
//! `config` holds the settings and the policies the pipeline runs with.

pub mod chain_event;
pub mod channel;
pub mod config;
pub mod retry;
pub mod runtime;
pub mod sink;
pub mod source;
pub mod supervisor;
