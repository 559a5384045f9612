//! The error kinds that the daemon and its clients can observe.

use vstd::prelude::*;

verus! {

/// Every way an operation of the daemon or a client can fail.
///
/// `NoSubscriber` and `FalseAlarm` are benign: producers use them to say that
/// nothing had to be sent.
#[derive(Clone, Copy, Debug, PartialEq, Eq, Structural)]
pub enum HyprvisorError {
    DaemonRunning,
    NoDaemon,
    JsonError,
    BincodeError,
    IoError,
    IpcError,
    ParseError,
    NoSubscriber,
    WifiError,
    BluetoothError,
    FalseAlarm,
    LoggerError,
    InvalidMessage,
    InvalidResponse,
    InvalidSubscription,
}

pub type HyprvisorResult<T> = Result<T, HyprvisorError>;

impl HyprvisorError {
    /// `true` for the two kinds that are signals and no faults.
    pub open spec fn spec_is_benign(self) -> bool {
        self == HyprvisorError::NoSubscriber || self == HyprvisorError::FalseAlarm
    }

    /// Whether a producer may go on as if nothing had happened.
    #[verifier::when_used_as_spec(spec_is_benign)]
    pub fn is_benign(self) -> (benign: bool)
        ensures
            benign == self.spec_is_benign(),
    {
        match self {
            HyprvisorError::NoSubscriber | HyprvisorError::FalseAlarm => true,
            _ => false,
        }
    }

    /// The one-line text shown to the user for this error.
    pub fn message(&self) -> (text: &'static str)
        ensures
            text@ == match *self {
                HyprvisorError::DaemonRunning => "Daemon is already running"@,
                HyprvisorError::NoDaemon => "No daemon found"@,
                HyprvisorError::JsonError => "Json error"@,
                HyprvisorError::BincodeError => "Bincode error"@,
                HyprvisorError::IoError => "IO error"@,
                HyprvisorError::IpcError => "Inter-processes communication error"@,
                HyprvisorError::ParseError => "Parse error"@,
                HyprvisorError::NoSubscriber => "No subscriber"@,
                HyprvisorError::WifiError => "Wifi error"@,
                HyprvisorError::BluetoothError => "Bluetooth error"@,
                HyprvisorError::FalseAlarm => "False alarm"@,
                HyprvisorError::LoggerError => "Logger error"@,
                HyprvisorError::InvalidMessage => "Invalid message"@,
                HyprvisorError::InvalidResponse => "Invalid response"@,
                HyprvisorError::InvalidSubscription => "Invalid subscription"@,
            },
    {
        match self {
            HyprvisorError::DaemonRunning => "Daemon is already running",
            HyprvisorError::NoDaemon => "No daemon found",
            HyprvisorError::JsonError => "Json error",
            HyprvisorError::BincodeError => "Bincode error",
            HyprvisorError::IoError => "IO error",
            HyprvisorError::IpcError => "Inter-processes communication error",
            HyprvisorError::ParseError => "Parse error",
            HyprvisorError::NoSubscriber => "No subscriber",
            HyprvisorError::WifiError => "Wifi error",
            HyprvisorError::BluetoothError => "Bluetooth error",
            HyprvisorError::FalseAlarm => "False alarm",
            HyprvisorError::LoggerError => "Logger error",
            HyprvisorError::InvalidMessage => "Invalid message",
            HyprvisorError::InvalidResponse => "Invalid response",
            HyprvisorError::InvalidSubscription => "Invalid subscription",
        }
    }
}

} // verus!
