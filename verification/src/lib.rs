//! Core of a dynamic-DNS updater.
//!
//! The library turns a logical (name, address) pair into a provider change
//! operation with fixed record type and time-to-live, batches such operations
//! in order, and plans the single idempotent submission of the batch to a
//! hosted zone. Obtaining the identity (hostname, public address) and the
//! network transport are external collaborators; the library consumes and
//! produces plain values only.

pub mod record;
pub mod text;
pub mod update;
pub mod zone;
