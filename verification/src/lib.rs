//! Control core for an unattended photo-booth appliance.
//!
//! The library holds the verified workflow logic: sequential filename
//! allocation, classification of external tool runs, the mutually exclusive
//! pipeline stages, and the coordinator that sequences
//! capture, post-processing and finalization while tracking the produced
//! artifacts. Probing the filesystem, spawning the external tools and serving
//! HTTP are left to the surrounding application, which feeds their results
//! into these functions as plain values.

pub mod coordinator;
pub mod encode;
pub mod error;
pub mod invoker;
pub mod namer;
pub mod state;
