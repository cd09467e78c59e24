//! Real-time multi-participant voice capture and turn-taking pipeline.
//!
//! A shared audio transport delivers periodic ticks that partition the
//! participants of a room into speaking and silent sets, each speaking entry
//! carrying a frame of decoded PCM samples. This library demultiplexes those
//! frames into per-participant buffers, detects conversational turn
//! boundaries from silence edges, and drives a sequential inference pipeline
//! (encode, transcribe, generate, synthesize, play) exactly once per detected
//! turn. The transport itself, the network services and all I/O live outside
//! the library; they hand plain values in and take plain values back.

pub mod buffers;
pub mod context;
pub mod identity;
pub mod registry;
pub mod session;
pub mod silence;
pub mod turn;
pub mod wav;
