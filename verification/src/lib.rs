//! A runtime for sending packets at a sustained, bounded rate.
//!
//! The runtime takes requests, hands them to workers that send at no more
//! than a set rate, and keeps count of what was sent. Its parts, each usable
//! alone:
//!
//! - [`buffer`]: a bounded pool of reusable transmit buffers;
//! - [`rate_limiter`]: a token bucket that refills on demand;
//! - [`metrics`]: counters and windowed samples, and the readout made of them;
//! - [`engine`]: the control channel, the work queue and the steps that the
//!   dispatcher, the workers and the publisher take.
//!
//! Around them stand what a front end needs: the channel plan in
//! [`network::channel`], interfaces in [`network::interface`], the targets
//! and the export buffer in [`gui`], and the platforms in [`platform`].
//!
//! Every function takes the engine, the pool or the collector by exclusive
//! reference: sharing them between threads, behind a lock, is for the caller.
//! So are sending, capturing and reading files. Functions that read a clock
//! have a twin ending in `_at` that takes the reading instead.

pub mod address;
pub mod buffer;
pub mod clock;
pub mod engine;
pub mod error;
pub mod gui;
pub mod metrics;
pub mod network;
pub mod platform;
pub mod queue;
pub mod rate_limiter;

pub use address::MacAddress;
pub use engine::DeauthEngine;
pub use error::DeauthError;
pub use metrics::Metrics;
pub use network::interface::NetworkInterface;
