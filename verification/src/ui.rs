//! What the presentation of the dashboard computes before it draws.

pub mod layout;
pub mod themes;
