//! Client-side core of the Durable Streams protocol: an HTTP-based,
//! resumable, append-only event-stream service with exactly-once appends.
//!
//! The crate verifies the protocol logic itself: stream positions
//! ([`types::Offset`]), the server-sent-events parser ([`sse::SseParser`]),
//! request planning and response interpretation for the stream operations
//! ([`stream::DurableStream`]), the read iterator's mode state machine
//! ([`iterator::ChunkIterator`]), and the idempotent producer's batching and
//! sequencing rules ([`producer::Producer`]). Transport (HTTP, timers,
//! tasks) is left to the embedding application, which drives these state
//! machines with the bytes and status codes it observes on the wire.

pub mod error;
pub mod iterator;
pub mod producer;
pub mod retry;
pub mod sse;
pub mod stream;
pub mod text;
pub mod types;

pub use error::{InvalidHeaderError, ProducerError, StreamError};
pub use iterator::{Chunk, ChunkIterator, ReadBuilder};
pub use producer::{AppendReceipt, Producer, ProducerBuilder};
pub use retry::{JitterMode, RetryConfig};
pub use sse::{SseEvent, SseParser};
pub use stream::{
    AppendOptions, AppendResponse, CreateOptions, DeleteOptions, DurableStream, HeadOptions,
    HeadResponse,
};
pub use types::{LiveMode, Offset};
