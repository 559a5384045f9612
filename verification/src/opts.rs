//! What the command line asks for, after it has been parsed.

use vstd::prelude::*;
use crate::error::HyprvisorError;
use crate::subscription::SubscriptionID;

verus! {

/// The widest workspace list a client may ask to be padded to.
pub const MAX_FIXED_WORKSPACES: u32 = 10;

/// A one-shot request to the daemon.
#[derive(Clone, Copy, Debug, PartialEq, Eq, Structural)]
pub enum CommandOpts {
    Ping,
    Kill,
}

/// The feed a client listens to, with its formatting parameter.
#[derive(Clone, Copy, Debug, PartialEq, Eq, Structural)]
pub enum SubscribeOpts {
    Workspaces { fix_workspace: Option<u32> },
    Window { title_length: Option<u32> },
    Wifi { ssid_length: Option<u32> },
    Bluetooth,
}

/// What the process was started to do.
#[derive(Clone, Copy, Debug, PartialEq, Eq, Structural)]
pub enum Action {
    Daemon,
    Command(CommandOpts),
    Listen(SubscribeOpts),
}

#[derive(Clone, Copy, Debug, PartialEq, Eq, Structural)]
pub struct Opts {
    pub verbose: bool,
    pub action: Action,
}

impl CommandOpts {
    /// The byte that stands for this command in a `Command` payload.
    pub open spec fn spec_to_byte(self) -> u8 {
        match self {
            CommandOpts::Ping => 0,
            CommandOpts::Kill => 1,
        }
    }

    /// The command a payload byte stands for; `ParseError` beyond 1.
    pub open spec fn spec_from_byte(value: u8) -> Result<CommandOpts, HyprvisorError> {
        if value == 0 {
            Ok(CommandOpts::Ping)
        } else if value == 1 {
            Ok(CommandOpts::Kill)
        } else {
            Err(HyprvisorError::ParseError)
        }
    }

    pub fn name(&self) -> (text: &'static str)
        ensures
            text@ == match *self {
                CommandOpts::Ping => "Ping"@,
                CommandOpts::Kill => "Kill"@,
            },
    {
        match self {
            CommandOpts::Ping => "Ping",
            CommandOpts::Kill => "Kill",
        }
    }
}

impl From<CommandOpts> for u8 {
    fn from(opts: CommandOpts) -> (byte: u8) {
        match opts {
            CommandOpts::Ping => 0,
            CommandOpts::Kill => 1,
        }
    }
}

impl vstd::std_specs::convert::FromSpecImpl<CommandOpts> for u8 {
    open spec fn obeys_from_spec() -> bool {
        true
    }

    open spec fn from_spec(opts: CommandOpts) -> u8 {
        opts.spec_to_byte()
    }
}

impl TryFrom<u8> for CommandOpts {
    type Error = HyprvisorError;

    fn try_from(value: u8) -> (result: Result<CommandOpts, HyprvisorError>) {
        match value {
            0 => Ok(CommandOpts::Ping),
            1 => Ok(CommandOpts::Kill),
            _ => Err(HyprvisorError::ParseError),
        }
    }
}

impl vstd::std_specs::convert::TryFromSpecImpl<u8> for CommandOpts {
    open spec fn obeys_try_from_spec() -> bool {
        true
    }

    open spec fn try_from_spec(value: u8) -> Result<CommandOpts, HyprvisorError> {
        CommandOpts::spec_from_byte(value)
    }
}

/// The smaller of two numbers.
pub open spec fn spec_min(a: u32, b: u32) -> u32 {
    if a <= b {
        a
    } else {
        b
    }
}

/// The feed and the formatting parameter that a subscription option stands
/// for. Where the option names no parameter there is none, and the updates
/// are shown as they come. A workspace count is capped at 10; a length is
/// taken as it is given.
pub open spec fn spec_parse_opts(opts: SubscribeOpts) -> (SubscriptionID, Option<u32>) {
    match opts {
        SubscribeOpts::Workspaces { fix_workspace } => (
            SubscriptionID::Workspaces,
            match fix_workspace {
                Some(fix) => Some(spec_min(fix, MAX_FIXED_WORKSPACES)),
                None => None,
            },
        ),
        SubscribeOpts::Window { title_length } => (SubscriptionID::Window, title_length),
        SubscribeOpts::Wifi { ssid_length } => (SubscriptionID::Wifi, ssid_length),
        SubscribeOpts::Bluetooth => (SubscriptionID::Bluetooth, None),
    }
}

fn min_u32(a: u32, b: u32) -> (smaller: u32)
    ensures
        smaller == spec_min(a, b),
{
    if a <= b {
        a
    } else {
        b
    }
}

/// Turns a subscription option into the feed to ask for and the parameter to
/// format its updates with, if there is one.
pub fn parse_opts(opts: SubscribeOpts) -> (parsed: (SubscriptionID, Option<u32>))
    ensures
        parsed == spec_parse_opts(opts),
        parsed.0.spec_is_feed(),
{
    match opts {
        SubscribeOpts::Workspaces { fix_workspace } => (
            SubscriptionID::Workspaces,
            match fix_workspace {
                Some(fix) => Some(min_u32(fix, MAX_FIXED_WORKSPACES)),
                None => None,
            },
        ),
        SubscribeOpts::Window { title_length } => (SubscriptionID::Window, title_length),
        SubscribeOpts::Wifi { ssid_length } => (SubscriptionID::Wifi, ssid_length),
        SubscribeOpts::Bluetooth => (SubscriptionID::Bluetooth, None),
    }
}

} // verus!
