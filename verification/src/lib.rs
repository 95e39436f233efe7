//! Verified core of a solar inverter/meter telemetry poller.
//!
//! The library decodes typed values from raw 16-bit holding-register words
//! (big-endian byte codec, signed-16 / unsigned-32 / packed-ASCII decoders),
//! applies power-of-ten scale factors as exact decimal values, and aggregates
//! one polling cycle's readings into a complete site snapshot. A bounded
//! Fibonacci backoff policy governs retries of a failed cycle. All I/O — the
//! register-protocol session, the HTTP publisher, timers — lives outside the
//! library and only hands plain values in and out.

pub mod codec;
pub mod cycle;
pub mod decode;
pub mod scale;
pub mod registers;
pub mod retry;
pub mod snapshot;
