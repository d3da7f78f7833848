//! A dual-context telemetry pipeline: a sampling context pulses an indicator
//! and acquires sensor readings; a rendering context consumes the resulting
//! messages and drives a character-grid display. The two contexts hand
//! messages over through a capacity-one rendezvous mailbox, the system's only
//! shared state.

pub mod channel;
pub mod format;
pub mod message;
pub mod pipeline;
pub mod producer;
pub mod render;
