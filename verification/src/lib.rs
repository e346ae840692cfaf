//! Verified decision logic for keeping a long-lived camera proxy within its
//! file descriptor budget, and for pausing a camera stream when there is no motion.

pub mod text;
pub mod usage;
pub mod monitor;
pub mod breakdown;
pub mod limits;
pub mod exhaustion;
pub mod stream;
