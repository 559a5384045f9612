//! The window manager's feeds: what its replies and events mean.

pub mod event;
pub mod json;
pub mod listener;
pub mod utils;
pub mod window;
pub mod workspace;
