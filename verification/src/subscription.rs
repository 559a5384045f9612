//! Feed kinds and the subscription request a client sends.

use vstd::prelude::*;
use vstd::bytes::*;
use crate::error::HyprvisorError;

verus! {

/// The feed a client subscribes to. `Invalid` stands for every byte that
/// names no feed; the daemon rejects it.
#[derive(Clone, Copy, Debug, PartialEq, Eq, Hash, Structural)]
pub enum SubscriptionID {
    Workspaces,
    Window,
    Wifi,
    Bluetooth,
    Invalid,
}

impl SubscriptionID {
    /// The byte that stands for this kind on the wire.
    pub open spec fn spec_to_byte(self) -> u8 {
        match self {
            SubscriptionID::Workspaces => 0,
            SubscriptionID::Window => 1,
            SubscriptionID::Wifi => 2,
            SubscriptionID::Bluetooth => 3,
            SubscriptionID::Invalid => 255,
        }
    }

    /// The kind a wire byte stands for.
    pub open spec fn spec_from_byte(value: u8) -> SubscriptionID {
        if value == 0 {
            SubscriptionID::Workspaces
        } else if value == 1 {
            SubscriptionID::Window
        } else if value == 2 {
            SubscriptionID::Wifi
        } else if value == 3 {
            SubscriptionID::Bluetooth
        } else {
            SubscriptionID::Invalid
        }
    }

    /// Whether this is one of the four feeds.
    pub open spec fn spec_is_feed(self) -> bool {
        self != SubscriptionID::Invalid
    }

    #[verifier::when_used_as_spec(spec_is_feed)]
    pub fn is_feed(self) -> (feed: bool)
        ensures
            feed == self.spec_is_feed(),
    {
        match self {
            SubscriptionID::Invalid => false,
            _ => true,
        }
    }

    /// The name of the feed, as it is written to the log.
    pub fn name(&self) -> (text: &'static str)
        ensures
            text@ == match *self {
                SubscriptionID::Workspaces => "Workspaces"@,
                SubscriptionID::Window => "Window"@,
                SubscriptionID::Wifi => "Wifi"@,
                SubscriptionID::Bluetooth => "Bluetooth"@,
                SubscriptionID::Invalid => "Invalid"@,
            },
    {
        match self {
            SubscriptionID::Workspaces => "Workspaces",
            SubscriptionID::Window => "Window",
            SubscriptionID::Wifi => "Wifi",
            SubscriptionID::Bluetooth => "Bluetooth",
            SubscriptionID::Invalid => "Invalid",
        }
    }
}

impl From<SubscriptionID> for u8 {
    fn from(value: SubscriptionID) -> (byte: u8) {
        match value {
            SubscriptionID::Workspaces => 0,
            SubscriptionID::Window => 1,
            SubscriptionID::Wifi => 2,
            SubscriptionID::Bluetooth => 3,
            SubscriptionID::Invalid => 255,
        }
    }
}

impl vstd::std_specs::convert::FromSpecImpl<SubscriptionID> for u8 {
    open spec fn obeys_from_spec() -> bool {
        true
    }

    open spec fn from_spec(value: SubscriptionID) -> u8 {
        value.spec_to_byte()
    }
}

impl From<u8> for SubscriptionID {
    fn from(value: u8) -> (kind: SubscriptionID) {
        match value {
            0 => SubscriptionID::Workspaces,
            1 => SubscriptionID::Window,
            2 => SubscriptionID::Wifi,
            3 => SubscriptionID::Bluetooth,
            _ => SubscriptionID::Invalid,
        }
    }
}

impl vstd::std_specs::convert::FromSpecImpl<u8> for SubscriptionID {
    open spec fn obeys_from_spec() -> bool {
        true
    }

    open spec fn from_spec(value: u8) -> SubscriptionID {
        SubscriptionID::spec_from_byte(value)
    }
}

/// What a client sends to subscribe: the feed it wants and its process id.
#[derive(Clone, Copy, Debug, PartialEq, Eq, Structural)]
pub struct ClientInfo {
    pub subscription_id: SubscriptionID,
    pub process_id: u32,
}

impl ClientInfo {
    /// The five bytes of a subscription payload: the feed's byte, then the
    /// process id, least significant byte first.
    pub open spec fn spec_encode(self) -> Seq<u8> {
        seq![self.subscription_id.spec_to_byte()] + spec_u32_to_le_bytes(self.process_id)
    }

    /// What a subscription payload stands for: `InvalidMessage` unless it has
    /// exactly five bytes.
    pub open spec fn spec_decode(buffer: Seq<u8>) -> Result<ClientInfo, HyprvisorError> {
        if buffer.len() != 5 {
            Err(HyprvisorError::InvalidMessage)
        } else {
            Ok(
                ClientInfo {
                    subscription_id: SubscriptionID::spec_from_byte(buffer[0]),
                    process_id: spec_u32_from_le_bytes(buffer.subrange(1, 5)),
                },
            )
        }
    }

    pub fn new(process_id: u32, subscription_id: SubscriptionID) -> (info: ClientInfo)
        ensures
            info.process_id == process_id,
            info.subscription_id == subscription_id,
    {
        ClientInfo { subscription_id, process_id }
    }

    /// The length of an encoded subscription payload.
    pub fn byte_size() -> (size: usize)
        ensures
            size == 5,
    {
        5
    }

    /// Writes the subscription as its payload bytes.
    pub fn encode(&self) -> (bytes: Vec<u8>)
        ensures
            bytes@ == self.spec_encode(),
            bytes@.len() == 5,
    {
        let mut bytes: Vec<u8> = Vec::new();
        bytes.push(u8::from(self.subscription_id));
        let mut pid = u32_to_le_bytes(self.process_id);
        bytes.append(&mut pid);
        bytes
    }

    /// Reads a subscription payload.
    pub fn decode(buffer: &[u8]) -> (result: Result<ClientInfo, HyprvisorError>)
        ensures
            result == ClientInfo::spec_decode(buffer@),
    {
        if buffer.len() != 5 {
            return Err(HyprvisorError::InvalidMessage);
        }
        let subscription_id = SubscriptionID::from(buffer[0]);
        let process_id = u32_from_le_bytes(vstd::slice::slice_subrange(buffer, 1, 5));
        Ok(ClientInfo { subscription_id, process_id })
    }
}

/// Decoding an encoded subscription gives the subscription back, whatever the
/// feed and the process id.
pub proof fn lemma_client_info_roundtrip(info: ClientInfo)
    ensures
        info.spec_encode().len() == 5,
        ClientInfo::spec_decode(info.spec_encode()) == Ok::<ClientInfo, HyprvisorError>(info),
{
    lemma_auto_spec_u32_to_from_le_bytes();
    let bytes = info.spec_encode();
    assert(bytes.subrange(1, 5) =~= spec_u32_to_le_bytes(info.process_id));
    assert(bytes[0] == info.subscription_id.spec_to_byte());
}

/// Two subscriptions with the same payload bytes are the same subscription.
pub proof fn lemma_client_info_encode_injective(a: ClientInfo, b: ClientInfo)
    requires
        a.spec_encode() == b.spec_encode(),
    ensures
        a == b,
{
    lemma_client_info_roundtrip(a);
    lemma_client_info_roundtrip(b);
}

/// Reading back the byte of a feed gives that feed, and the four feeds have
/// the bytes 0, 1, 2 and 3.
pub proof fn lemma_subscription_id_bytes(kind: SubscriptionID)
    ensures
        SubscriptionID::spec_from_byte(kind.spec_to_byte()) == kind,
        SubscriptionID::Workspaces.spec_to_byte() == 0,
        SubscriptionID::Window.spec_to_byte() == 1,
        SubscriptionID::Wifi.spec_to_byte() == 2,
        SubscriptionID::Bluetooth.spec_to_byte() == 3,
        kind.spec_is_feed() <==> kind.spec_to_byte() <= 3,
{
}

/// A byte names a feed exactly when it is at most 3, and then it is the byte
/// of the feed it names.
pub proof fn lemma_subscription_byte_kinds(value: u8)
    ensures
        SubscriptionID::spec_from_byte(value).spec_is_feed() <==> value <= 3,
        value <= 3 ==> SubscriptionID::spec_from_byte(value).spec_to_byte() == value,
{
}

} // verus!
