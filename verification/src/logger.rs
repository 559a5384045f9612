//! Which log a process writes.

use vstd::prelude::*;

verus! {

#[derive(Clone, Copy, Debug, PartialEq, Eq, Structural)]
pub enum LoggerType {
    Server,
    Client,
    Command,
}

impl LoggerType {
    /// The file the log goes to; a command writes to standard output only.
    pub fn log_file(&self) -> (path: Option<&'static str>)
        ensures
            match *self {
                LoggerType::Server => path is Some && path.unwrap()@
                    == "/tmp/hyprvisor-server.log"@,
                LoggerType::Client => path is Some && path.unwrap()@
                    == "/tmp/hyprvisor-client.log"@,
                LoggerType::Command => path is None,
            },
    {
        match self {
            LoggerType::Server => Some("/tmp/hyprvisor-server.log"),
            LoggerType::Client => Some("/tmp/hyprvisor-client.log"),
            LoggerType::Command => None,
        }
    }

    /// Whether each line starts with the id of the process: clients share
    /// one file.
    pub fn shows_process_id(&self) -> (shown: bool)
        ensures
            shown == (*self == LoggerType::Client),
    {
        match self {
            LoggerType::Client => true,
            _ => false,
        }
    }
}

} // verus!
