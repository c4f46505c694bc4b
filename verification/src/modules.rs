//! The providers' data and the focus timer.

pub mod builds;
pub mod coverage;
pub mod git;
pub mod system;
pub mod timer;
