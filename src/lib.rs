//! Retrieval engine for a job-oriented data service: retry policy, protocol
//! selection, the two polling state machines and the resumable downloader.
//!
//! The engine decides; the caller performs the network and file work that
//! each decision names and hands back what happened.
use vstd::prelude::*;

pub mod client;
pub mod config;
pub mod credentials;
pub mod diagnosis;
pub mod download;
pub mod error;
pub mod legacy;
pub mod policy;
pub mod processing;
pub mod text;
pub mod url;

pub use client::{Client, RemoteFile};
pub use config::ClientConfig;

verus! {

} // verus!
