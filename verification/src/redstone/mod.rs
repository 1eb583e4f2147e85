//! Wire shapes, delays and the clock.

pub mod junctions;
pub mod scheduler;
pub mod ticks;

pub use junctions::{JunctionType, get_junction_type, resolve_junction};
pub use scheduler::{NotifyDelay, Scheduler, Tick};
pub use ticks::{GlobalTick, tick_the_counter};
