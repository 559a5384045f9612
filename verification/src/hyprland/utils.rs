//! The two sockets of the window manager.

use vstd::prelude::*;

verus! {

/// Attempts made to reach the command socket.
pub const HYPRLAND_SOCKET_CONNECT_ATTEMPT: u32 = 3;

/// Milliseconds between two of these attempts.
pub const HYPRLAND_SOCKET_CONNECT_DELAY: u64 = 100;

/// Attempts made to get an answer to one command.
pub const HYPRLAND_COMMAND_ATTEMPT: u32 = 10;

#[derive(Clone, Copy, Debug, PartialEq, Eq, Structural)]
pub enum HyprSocketType {
    /// The socket that events are read from.
    Event,
    /// The socket that answers queries.
    Command,
}

/// The file name of a socket.
pub open spec fn hyprland_socket_name(socket_type: HyprSocketType) -> Seq<char> {
    match socket_type {
        HyprSocketType::Command => ".socket.sock"@,
        HyprSocketType::Event => ".socket2.sock"@,
    }
}

impl HyprSocketType {
    pub fn socket_name(&self) -> (name: &'static str)
        ensures
            name@ == hyprland_socket_name(*self),
    {
        match self {
            HyprSocketType::Command => ".socket.sock",
            HyprSocketType::Event => ".socket2.sock",
        }
    }
}

/// The query that asks for the focused window.
pub fn active_window_query() -> (query: &'static str)
    ensures
        query@ == "j/activewindow"@,
{
    "j/activewindow"
}

/// The query that asks for the focused workspace.
pub fn active_workspace_query() -> (query: &'static str)
    ensures
        query@ == "j/activeworkspace"@,
{
    "j/activeworkspace"
}

/// The query that asks for all workspaces.
pub fn workspaces_query() -> (query: &'static str)
    ensures
        query@ == "j/workspaces"@,
{
    "j/workspaces"
}

} // verus!
