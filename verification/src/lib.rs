//! Measure the wall-clock time of a block of code and render the elapsed
//! duration as a compact string with an automatically chosen time unit.

pub mod clock;
pub mod duration;
pub mod text;

pub use clock::measure_time;
pub use duration::Elapsed;
pub use duration::TimeUnit;
pub use text::Alignment;
