//! A periodic-task scheduler library.
//!
//! The heart of the library is the delay calculator: a pure function that,
//! given a task's nominal interval, the duration of the last execution and
//! the debt accumulated so far, decides how long to wait before the next
//! firing and what the new debt is. Around it stand a duration type with
//! verified arithmetic and the lifecycle of the background execution
//! context that hosts the scheduling loops.

pub mod delay;
pub mod duration;
pub mod lifecycle;

pub use delay::calculate_delay;
pub use delay::fixed_interval_wait;
pub use duration::Dur;
