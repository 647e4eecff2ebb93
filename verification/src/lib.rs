//! Real-time event-timeline pipeline for multi-modal math dictation.
//!
//! Speech is captured as audio samples and periodically transcribed; keyboard
//! "structure hint" keys produce symbol events. Both streams are merged into a
//! single timeline, ordered by timestamp, which is rendered into a prompt for
//! a LaTeX-producing language model.
//!
//! Timestamps are carried as whole centiseconds (hundredths of a second) so
//! that ordering and the two-decimal rendering used by the prompt and the log
//! are exact. Audio samples are carried as opaque 32-bit words: the library
//! buffers and counts them but never interprets their contents.

pub mod audio;
pub mod clock;
pub mod event;
pub mod keys;
pub mod llm;
pub mod output;
pub mod render;
pub mod scheduler;
pub mod session;
pub mod timeline;
