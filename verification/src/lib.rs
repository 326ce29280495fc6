//! A thread-safe, gapless sequential-playback queue for audio samples.
//!
//! Producers append playable sources to the end of a shared queue from any
//! thread; the single consumer pulls samples from a [`queue::SourcesQueueOutput`],
//! which plays each queued source in order, falls through to the next when one
//! is exhausted, and can synthesize short runs of silence instead of ending
//! when the queue runs dry.

pub mod model;
pub mod queue;
pub mod signal;
pub mod source;
