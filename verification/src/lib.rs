//! State and decision logic of a terminal dashboard for developers: a focus
//! timer, the log of focus sessions, the snapshot of project signals and the
//! rules by which key presses and provider results change them.

pub mod app;
pub mod config;
pub mod events;
pub mod json;
pub mod limits;
pub mod modules;
pub mod storage;
pub mod text;
pub mod ui;
