//! Streaming pipeline that turns live audio callbacks into bounded sample
//! windows for batch inference, and the text that comes back into captions.
//!
//! A frame from the device is mixed down to mono ([`mixer`]), brought to the
//! target rate ([`resampler`]) and gathered into windows under one of two
//! policies ([`sliding`], [`threshold`], [`assembler`]); [`capture`] puts
//! these steps together for one session. Windows and transcripts cross
//! threads through queues that never make the producer wait ([`handoff`]),
//! and a bounded pool of workers takes the windows in order
//! ([`dispatcher`]). What the engines return is filtered, translated where
//! it is English and captioned ([`transcript`], [`language`], [`decoding`],
//! [`display`]).
//!
//! The stages are generic over the sample type: the crate fixes how samples
//! are paired, ordered, buffered, windowed and dispatched, and leaves the
//! arithmetic on a sample, and the engines, to the caller.

pub mod assembler;
pub mod buffer;
pub mod capture;
pub mod decoding;
pub mod dispatcher;
pub mod display;
pub mod handoff;
pub mod language;
pub mod mixer;
pub mod resampler;
pub mod sliding;
pub mod text;
pub mod threshold;
pub mod transcript;
pub mod window;
