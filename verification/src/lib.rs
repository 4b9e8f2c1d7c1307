//! Buffering between a pipeline stage that produces records and one that
//! consumes them.
//!
//! A [`BufferConfig`] builds the three parts of a buffer: the handle of its
//! write side ([`BufferInputCloner`]), its read side ([`BufferOutput`]) and
//! the [`Acker`] with which the consumer acknowledges what it has processed.
//! Each producer gets its own write endpoint from the handle. Where the
//! buffer is to drop the newest record when it is full ([`WhenFull`]), that
//! endpoint stands behind [`DropWhenFull`], which turns "not ready" into loss.
//!
//! What an endpoint does is stated as relations between the state before a
//! call, the state after it and the answer ([`Endpoint`]). The backing stores
//! themselves, a channel in memory and a queue on disk, are not part of this
//! crate: their answers are taken as they come, and every statement about a
//! decorated or a plain endpoint is made relative to them.

pub mod acker;
pub mod channel;
pub mod config;
pub mod drop_when_full;
pub mod endpoint;
pub mod input;
pub mod policy;

pub use acker::Acker;
pub use config::{BufferConfig, BufferOutput, Resource};
pub use drop_when_full::DropWhenFull;
pub use endpoint::{Endpoint, Readiness};
pub use input::{BufferInput, BufferInputCloner, StoreEndpoint};
pub use policy::WhenFull;
