//! A monotonic tick counter and a single-slot wake alarm for a cooperative
//! executor on a single-core microcontroller.

pub mod queue;
pub mod tick_source;
pub mod time_driver;
