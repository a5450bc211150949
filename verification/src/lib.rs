//! A process-local, lock-free rate limiter: at most one event is let
//! through per caller-chosen minimum interval, shared safely across
//! concurrent threads without locks.
//!
//! The core pieces are a monotonic millisecond time source, a
//! wraparound-safe timestamp comparison, and a single atomic
//! compare-and-exchange gate ([`OnlyEvery`]) that decides admission.
//! Call [`OnlyEvery::check`] and perform the gated action exactly when it
//! returns `true`.
//!
//! A zero or sub-millisecond interval is deliberately clamped to one
//! millisecond rather than rejected: a true zero interval would admit
//! every call and the stored timestamp would stop advancing.

pub mod compare_times;
pub mod interval;
pub mod only_every;
pub mod quanta_time_source;
pub mod std_time_source;
pub mod time_source;

pub use crate::compare_times::compare_times;
pub use crate::interval::round_up;
pub use crate::only_every::admission_due;
pub use crate::only_every::OnlyEvery;
pub use crate::interval::Interval;
pub use crate::quanta_time_source::QuantaTimeSource;
pub use crate::std_time_source::StdTimeSource;
pub use crate::time_source::TimeSource;
