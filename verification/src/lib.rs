//! Decision logic of a desktop feed daemon: the framed wire format, the
//! subscriber registry, and the producers' change detection.
//!
//! Everything that touches a socket, the clock or a radio backend is left to
//! the caller. The functions here take plain values, say what to do next, and
//! carry contracts that Verus proves.

pub mod bluetooth;
pub mod client;
pub mod error;
pub mod fanout;
pub mod hyprland;
pub mod logger;
pub mod message;
pub mod opts;
pub mod registry;
pub mod server;
pub mod socket;
pub mod subscription;
pub mod text;
pub mod utils;
pub mod wifi;
