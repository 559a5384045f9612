//! The framed message that travels over the daemon socket.
//!
//! On the wire a message is one byte for its type, eight bytes for the length
//! of its payload (least significant byte first, whatever the host), and then
//! the payload.

use vstd::prelude::*;
use vstd::bytes::*;
use vstd::slice::{slice_subrange, slice_to_vec};
use vstd::string::StringSliceAdditionalSpecFns;
use crate::error::HyprvisorError;
use crate::opts::CommandOpts;
use crate::subscription::ClientInfo;

verus! {

/// Bytes taken by the message type.
pub const MESSAGE_TYPE_LEN: usize = 1;

/// Bytes taken by the payload length.
pub const MESSAGE_HEADER_LEN: usize = 8;

/// Bytes in front of the payload.
pub const MESSAGE_METADATA_LEN: usize = 9;

#[derive(Clone, Copy, Debug, PartialEq, Eq, Structural)]
pub enum MessageType {
    Command,
    Subscription,
    Response,
}

/// Why a buffer is no message.
#[derive(Clone, Copy, Debug, PartialEq, Eq, Structural)]
pub enum DecodeError {
    /// The buffer ends before the payload length does.
    ShortHeader,
    /// The buffer holds fewer payload bytes than its header declares.
    ShortPayload,
    /// The first byte names no message type.
    UnknownType,
}

impl MessageType {
    pub open spec fn spec_to_byte(self) -> u8 {
        match self {
            MessageType::Command => 0,
            MessageType::Subscription => 1,
            MessageType::Response => 2,
        }
    }

    pub open spec fn spec_from_byte(value: u8) -> Result<MessageType, HyprvisorError> {
        if value == 0 {
            Ok(MessageType::Command)
        } else if value == 1 {
            Ok(MessageType::Subscription)
        } else if value == 2 {
            Ok(MessageType::Response)
        } else {
            Err(HyprvisorError::ParseError)
        }
    }
}

impl From<MessageType> for u8 {
    fn from(value: MessageType) -> (byte: u8) {
        match value {
            MessageType::Command => 0,
            MessageType::Subscription => 1,
            MessageType::Response => 2,
        }
    }
}

impl vstd::std_specs::convert::FromSpecImpl<MessageType> for u8 {
    open spec fn obeys_from_spec() -> bool {
        true
    }

    open spec fn from_spec(value: MessageType) -> u8 {
        value.spec_to_byte()
    }
}

impl TryFrom<u8> for MessageType {
    type Error = HyprvisorError;

    fn try_from(value: u8) -> (result: Result<MessageType, HyprvisorError>) {
        match value {
            0 => Ok(MessageType::Command),
            1 => Ok(MessageType::Subscription),
            2 => Ok(MessageType::Response),
            _ => Err(HyprvisorError::ParseError),
        }
    }
}

impl vstd::std_specs::convert::TryFromSpecImpl<u8> for MessageType {
    open spec fn obeys_try_from_spec() -> bool {
        true
    }

    open spec fn try_from_spec(value: u8) -> Result<MessageType, HyprvisorError> {
        MessageType::spec_from_byte(value)
    }
}

impl From<DecodeError> for HyprvisorError {
    fn from(error: DecodeError) -> (kind: HyprvisorError) {
        HyprvisorError::ParseError
    }
}

impl vstd::std_specs::convert::FromSpecImpl<DecodeError> for HyprvisorError {
    open spec fn obeys_from_spec() -> bool {
        true
    }

    open spec fn from_spec(error: DecodeError) -> HyprvisorError {
        HyprvisorError::ParseError
    }
}

/// A message as a mathematical value: its type, the payload length its header
/// declares, and its payload.
pub struct MessageView {
    pub message_type: MessageType,
    pub header: usize,
    pub payload: Seq<u8>,
}

impl MessageView {
    /// A message is valid when its header tells the truth about its payload.
    pub open spec fn is_valid(self) -> bool {
        self.payload.len() == self.header
    }

    /// The bytes of the message on the wire.
    pub open spec fn encode(self) -> Seq<u8> {
        seq![self.message_type.spec_to_byte()] + spec_u64_to_le_bytes(self.header as u64)
            + self.payload
    }

    /// The payload length that the header of `buffer` declares.
    pub open spec fn declared_len(buffer: Seq<u8>) -> u64
        recommends
            buffer.len() >= 9,
    {
        spec_u64_from_le_bytes(buffer.subrange(1, 9))
    }

    /// The message at the front of `buffer`, or the reason there is none.
    /// Bytes behind the declared payload are not looked at.
    pub open spec fn decode(buffer: Seq<u8>) -> Result<MessageView, DecodeError> {
        if buffer.len() < 9 {
            Err(DecodeError::ShortHeader)
        } else if Self::declared_len(buffer) > buffer.len() - 9 {
            Err(DecodeError::ShortPayload)
        } else {
            match MessageType::spec_from_byte(buffer[0]) {
                Ok(message_type) => Ok(
                    MessageView {
                        message_type,
                        header: Self::declared_len(buffer) as usize,
                        payload: buffer.subrange(9, 9 + Self::declared_len(buffer)),
                    },
                ),
                Err(_) => Err(DecodeError::UnknownType),
            }
        }
    }
}

#[derive(Debug)]
pub struct HyprvisorMessage {
    pub message_type: MessageType,
    /// The payload length that the message declares.
    pub header: usize,
    pub payload: Vec<u8>,
}

impl View for HyprvisorMessage {
    type V = MessageView;

    open spec fn view(&self) -> MessageView {
        MessageView {
            message_type: self.message_type,
            header: self.header,
            payload: self.payload@,
        }
    }
}

impl Clone for HyprvisorMessage {
    fn clone(&self) -> (copy: HyprvisorMessage)
        ensures
            copy@ == self@,
    {
        HyprvisorMessage {
            message_type: self.message_type,
            header: self.header,
            payload: self.payload.clone(),
        }
    }
}

impl HyprvisorMessage {
    pub open spec fn spec_is_valid(&self) -> bool {
        self@.is_valid()
    }

    /// Whether the header tells the truth about the payload.
    #[verifier::when_used_as_spec(spec_is_valid)]
    pub fn is_valid(&self) -> (valid: bool)
        ensures
            valid == self@.is_valid(),
    {
        self.payload.len() == self.header
    }

    /// The number of bytes the message declares to take on the wire. For a
    /// valid message that is the length of its encoding.
    pub fn len(&self) -> (size: usize)
        requires
            self.header + 9 <= usize::MAX,
        ensures
            size == 1 + 8 + self.header,
            self@.is_valid() ==> size == self@.encode().len(),
    {
        proof {
            lemma_auto_spec_u64_to_from_le_bytes();
        }
        MESSAGE_TYPE_LEN + MESSAGE_HEADER_LEN + self.header
    }

    /// The message that carries a command.
    pub fn command(opts: CommandOpts) -> (message: HyprvisorMessage)
        ensures
            message.message_type == MessageType::Command,
            message.header == 1,
            message.payload@ == seq![opts.spec_to_byte()],
            message@.is_valid(),
    {
        let mut payload: Vec<u8> = Vec::new();
        payload.push(u8::from(opts));
        HyprvisorMessage { message_type: MessageType::Command, header: 1, payload }
    }

    /// The message that carries a subscription.
    pub fn subscription(info: ClientInfo) -> (message: HyprvisorMessage)
        ensures
            message.message_type == MessageType::Subscription,
            message.header == 5,
            message.payload@ == info.spec_encode(),
            message@.is_valid(),
    {
        let payload = info.encode();
        HyprvisorMessage { message_type: MessageType::Subscription, header: 5, payload }
    }

    /// The response that carries `payload`.
    pub fn response(payload: Vec<u8>) -> (message: HyprvisorMessage)
        ensures
            message.message_type == MessageType::Response,
            message.header == payload@.len(),
            message.payload@ == payload@,
            message@.is_valid(),
    {
        HyprvisorMessage { message_type: MessageType::Response, header: payload.len(), payload }
    }

    /// The response that carries the bytes of `text`.
    pub fn text_response(text: &str) -> (message: HyprvisorMessage)
        ensures
            message.message_type == MessageType::Response,
            message.header == text.spec_bytes().len(),
            message.payload@ == text.spec_bytes(),
            message@.is_valid(),
    {
        let payload = slice_to_vec(text.as_bytes());
        HyprvisorMessage { message_type: MessageType::Response, header: payload.len(), payload }
    }

    /// Writes the message as it travels over the socket.
    pub fn encode(&self) -> (bytes: Vec<u8>)
        ensures
            bytes@ == self@.encode(),
            bytes@.len() == 9 + self.payload@.len(),
    {
        let mut bytes: Vec<u8> = Vec::new();
        bytes.push(u8::from(self.message_type));
        let mut header = u64_to_le_bytes(self.header as u64);
        bytes.append(&mut header);
        bytes.extend_from_slice(self.payload.as_slice());
        bytes
    }

    /// Reads the message at the front of `buffer`.
    pub fn decode(buffer: &[u8]) -> (result: Result<HyprvisorMessage, DecodeError>)
        ensures
            match result {
                Ok(message) => MessageView::decode(buffer@) == Ok::<MessageView, DecodeError>(
                    message@,
                ),
                Err(error) => MessageView::decode(buffer@) == Err::<MessageView, DecodeError>(
                    error,
                ),
            },
    {
        if buffer.len() < MESSAGE_METADATA_LEN {
            return Err(DecodeError::ShortHeader);
        }
        let declared: u64 = u64_from_le_bytes(slice_subrange(buffer, 1, 9));
        let tail: usize = buffer.len() - MESSAGE_METADATA_LEN;
        if declared > tail as u64 {
            return Err(DecodeError::ShortPayload);
        }
        let header: usize = declared as usize;
        let message_type = match MessageType::try_from(buffer[0]) {
            Ok(message_type) => message_type,
            Err(_) => {
                return Err(DecodeError::UnknownType);
            },
        };
        let payload = slice_to_vec(slice_subrange(buffer, 9, 9 + header));
        Ok(HyprvisorMessage { message_type, header, payload })
    }
}

/// Decoding the encoding of a valid message gives the message back.
pub proof fn lemma_codec_roundtrip(message: MessageView)
    requires
        message.is_valid(),
    ensures
        message.encode().len() == 1 + 8 + message.header,
        MessageView::decode(message.encode()) == Ok::<MessageView, DecodeError>(message),
{
    lemma_auto_spec_u64_to_from_le_bytes();
    let bytes = message.encode();
    let header = spec_u64_to_le_bytes(message.header as u64);
    assert(bytes.subrange(1, 9) =~= header);
    assert(bytes.subrange(9, 9 + message.header) =~= message.payload);
    assert(bytes[0] == message.message_type.spec_to_byte());
}

/// Bytes behind an encoded valid message do not change what is decoded.
pub proof fn lemma_codec_roundtrip_with_tail(message: MessageView, tail: Seq<u8>)
    requires
        message.is_valid(),
    ensures
        MessageView::decode(message.encode() + tail) == Ok::<MessageView, DecodeError>(message),
{
    lemma_auto_spec_u64_to_from_le_bytes();
    let bytes = message.encode() + tail;
    let header = spec_u64_to_le_bytes(message.header as u64);
    assert(bytes.subrange(1, 9) =~= header);
    assert(bytes.subrange(9, 9 + message.header) =~= message.payload);
    assert(bytes[0] == message.message_type.spec_to_byte());
}

/// A buffer of fewer than nine bytes is rejected for its header; a longer one
/// whose header declares more than follows it is rejected for its payload.
pub proof fn lemma_codec_rejection(buffer: Seq<u8>)
    ensures
        buffer.len() < 1 + 8 ==> MessageView::decode(buffer) == Err::<MessageView, DecodeError>(
            DecodeError::ShortHeader,
        ),
        buffer.len() >= 1 + 8 && MessageView::declared_len(buffer) > buffer.len() - 9
            ==> MessageView::decode(buffer) == Err::<MessageView, DecodeError>(
            DecodeError::ShortPayload,
        ),
{
}

/// Whatever is decoded is a valid message whose encoding is the front of the
/// buffer it was read from.
pub proof fn lemma_decoded_is_prefix(buffer: Seq<u8>)
    requires
        buffer.len() <= usize::MAX,
        MessageView::decode(buffer) is Ok,
    ensures
        MessageView::decode(buffer).unwrap().is_valid(),
        MessageView::decode(buffer).unwrap().encode() == buffer.subrange(
            0,
            9 + MessageView::declared_len(buffer),
        ),
{
    lemma_auto_spec_u64_to_from_le_bytes();
    let message = MessageView::decode(buffer).unwrap();
    let declared = MessageView::declared_len(buffer);
    assert(message.header as u64 == declared);
    assert(spec_u64_to_le_bytes(spec_u64_from_le_bytes(buffer.subrange(1, 9))) == buffer.subrange(
        1,
        9,
    ));
    assert(message.encode() =~= buffer.subrange(0, 9 + declared));
}

} // verus!
