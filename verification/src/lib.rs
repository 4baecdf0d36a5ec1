//! Streaming-inference orchestration core.
//!
//! The library is the verified control logic of a small captioning server:
//! the per-request generation session (a bounded autoregressive decode loop
//! with early exit), the bounded FIFO event conduit feeding the response
//! stream, the arbiter serializing access to the shared model resource, the
//! JSON framing of progress events, and the static-asset routing decision.
//! The model mathematics, the tokenizer, and all I/O live outside and are
//! reached only through narrow trusted interfaces or the surrounding binary.

pub mod assets;
pub mod channel;
pub mod event;
pub mod gateway;
pub mod generate;
pub mod lock;
