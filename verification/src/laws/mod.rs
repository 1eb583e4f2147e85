//! What holds of the rules, whatever the world looks like.

pub mod bookings;
pub mod idempotence;
pub mod mounting;
pub mod power;
pub mod torch_delay;
