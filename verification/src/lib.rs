//! Core of a hotkey-driven voice transcription pipeline: a session-epoch
//! concurrency model that serializes pipeline runs and invalidates superseded
//! ones, a transcription-provider contract with a typed error taxonomy, an
//! OAuth token lifecycle, and a browser-bridge provider that recovers results
//! over a local loopback callback protocol.

pub mod session;
pub mod text;
pub mod transcription;
pub mod pipeline;
pub mod auth;
pub mod httpmsg;
pub mod urlenc;
pub mod jsonval;
pub mod chatgpt;
pub mod bridge;
pub mod history;
pub mod stats;
