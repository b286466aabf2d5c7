//! An append-only, offset-addressed commit log engine.
//!
//! Many producers hand append, read and last-offset requests to a single
//! consumer (the engine) over a channel. The engine owns the on-disk
//! commit log, coalesces the append requests it drains in one step into a
//! single physical append, answers each request through a one-shot
//! completion channel, and bounds how often it fsyncs.

pub mod channel;
pub mod clock;
pub mod commitlog_api;
pub mod engine;
pub mod errors;
pub mod handle;
pub mod laws;
pub mod messages;
pub mod pool;

pub use clock::Clock;
pub use clock::ManualClock;
pub use engine::Engine;
pub use engine::LogConfig;
pub use engine::ReadPosition;
pub use errors::LogError;
pub use handle::AsyncLog;
pub use handle::LogFuture;
pub use handle::Runner;
pub use messages::Messages;
pub use pool::BufferPool;
