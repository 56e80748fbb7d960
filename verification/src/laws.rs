//! What holds of every run, whatever the outside world answers.
//!
//! A run is taken as the sequence of outcomes that the caller reports. The
//! laws say what the run asks for then, and in which order.

pub mod commit;
pub mod fstab;
pub mod idempotence;
pub mod overlay;
pub mod range;
pub mod relocation;
pub mod trace;
pub mod transfer;
