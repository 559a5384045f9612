use hyprvisor::error::HyprvisorError;
use hyprvisor::message::{DecodeError, HyprvisorMessage, MessageType};
use hyprvisor::opts::CommandOpts;
use hyprvisor::subscription::{ClientInfo, SubscriptionID};

#[test]
fn encode_ping_command_bytes() {
    let message = HyprvisorMessage::command(CommandOpts::Ping);
    assert_eq!(message.message_type, MessageType::Command);
    assert_eq!(message.header, 1);
    assert_eq!(message.payload, vec![0u8]);
    assert_eq!(message.encode(), vec![0u8, 1, 0, 0, 0, 0, 0, 0, 0, 0]);
}

#[test]
fn encode_kill_command_bytes() {
    let message = HyprvisorMessage::command(CommandOpts::Kill);
    assert_eq!(message.encode(), vec![0u8, 1, 0, 0, 0, 0, 0, 0, 0, 1]);
}

#[test]
fn pong_response_roundtrip() {
    let message = HyprvisorMessage::text_response("Pong");
    assert_eq!(message.message_type, MessageType::Response);
    assert_eq!(message.header, 4);
    assert_eq!(message.payload, b"Pong".to_vec());
    assert!(message.is_valid());
    assert_eq!(message.len(), 13);
    let bytes = message.encode();
    assert_eq!(bytes, vec![2u8, 4, 0, 0, 0, 0, 0, 0, 0, b'P', b'o', b'n', b'g']);
    let decoded = HyprvisorMessage::decode(&bytes).unwrap();
    assert_eq!(decoded.message_type, MessageType::Response);
    assert_eq!(decoded.header, 4);
    assert_eq!(decoded.payload, b"Pong".to_vec());
}

#[test]
fn decode_roundtrip_of_every_type() {
    for (kind, byte) in [
        (MessageType::Command, 0u8),
        (MessageType::Subscription, 1u8),
        (MessageType::Response, 2u8),
    ] {
        let payload: Vec<u8> = (0..=255u8).collect();
        let message = HyprvisorMessage { message_type: kind, header: 256, payload: payload.clone() };
        let bytes = message.encode();
        assert_eq!(bytes.len(), 1 + 8 + 256);
        assert_eq!(bytes[0], byte);
        assert_eq!(&bytes[1..9], &[0u8, 1, 0, 0, 0, 0, 0, 0]);
        let decoded = HyprvisorMessage::decode(&bytes).unwrap();
        assert_eq!(decoded.message_type, kind);
        assert_eq!(decoded.header, 256);
        assert_eq!(decoded.payload, payload);
    }
}

#[test]
fn decode_empty_payload() {
    let bytes = vec![2u8, 0, 0, 0, 0, 0, 0, 0, 0];
    let decoded = HyprvisorMessage::decode(&bytes).unwrap();
    assert_eq!(decoded.message_type, MessageType::Response);
    assert_eq!(decoded.header, 0);
    assert!(decoded.payload.is_empty());
    assert!(decoded.is_valid());
}

#[test]
fn decode_short_header() {
    for len in 0..9usize {
        let bytes = vec![0u8; len];
        assert_eq!(HyprvisorMessage::decode(&bytes).unwrap_err(), DecodeError::ShortHeader);
    }
}

#[test]
fn decode_short_payload() {
    let bytes = vec![2u8, 5, 0, 0, 0, 0, 0, 0, 0, 1, 2, 3, 4];
    assert_eq!(HyprvisorMessage::decode(&bytes).unwrap_err(), DecodeError::ShortPayload);
    let huge = vec![2u8, 255, 255, 255, 255, 255, 255, 255, 255, 1];
    assert_eq!(HyprvisorMessage::decode(&huge).unwrap_err(), DecodeError::ShortPayload);
}

#[test]
fn decode_short_payload_comes_before_unknown_type() {
    let bytes = vec![9u8, 2, 0, 0, 0, 0, 0, 0, 0, 1];
    assert_eq!(HyprvisorMessage::decode(&bytes).unwrap_err(), DecodeError::ShortPayload);
}

#[test]
fn decode_unknown_type() {
    let bytes = vec![3u8, 1, 0, 0, 0, 0, 0, 0, 0, 7];
    assert_eq!(HyprvisorMessage::decode(&bytes).unwrap_err(), DecodeError::UnknownType);
    assert_eq!(HyprvisorError::from(DecodeError::UnknownType), HyprvisorError::ParseError);
    assert_eq!(HyprvisorError::from(DecodeError::ShortHeader), HyprvisorError::ParseError);
    assert_eq!(HyprvisorError::from(DecodeError::ShortPayload), HyprvisorError::ParseError);
}

#[test]
fn decode_ignores_bytes_behind_the_payload() {
    let bytes = vec![0u8, 1, 0, 0, 0, 0, 0, 0, 0, 1, 42, 43];
    let decoded = HyprvisorMessage::decode(&bytes).unwrap();
    assert_eq!(decoded.message_type, MessageType::Command);
    assert_eq!(decoded.payload, vec![1u8]);
}

#[test]
fn invalid_message_is_detected() {
    let message = HyprvisorMessage { message_type: MessageType::Response, header: 3, payload: vec![1, 2] };
    assert!(!message.is_valid());
    assert_eq!(message.len(), 12);
}

#[test]
fn message_type_bytes() {
    assert_eq!(u8::from(MessageType::Command), 0);
    assert_eq!(u8::from(MessageType::Subscription), 1);
    assert_eq!(u8::from(MessageType::Response), 2);
    assert_eq!(MessageType::try_from(0u8), Ok(MessageType::Command));
    assert_eq!(MessageType::try_from(1u8), Ok(MessageType::Subscription));
    assert_eq!(MessageType::try_from(2u8), Ok(MessageType::Response));
    assert_eq!(MessageType::try_from(3u8), Err(HyprvisorError::ParseError));
    assert_eq!(MessageType::try_from(255u8), Err(HyprvisorError::ParseError));
}

#[test]
fn subscription_kind_bytes_are_stable() {
    assert_eq!(u8::from(SubscriptionID::Workspaces), 0);
    assert_eq!(u8::from(SubscriptionID::Window), 1);
    assert_eq!(u8::from(SubscriptionID::Wifi), 2);
    assert_eq!(u8::from(SubscriptionID::Bluetooth), 3);
    assert_eq!(u8::from(SubscriptionID::Invalid), 255);
    assert_eq!(SubscriptionID::from(0u8), SubscriptionID::Workspaces);
    assert_eq!(SubscriptionID::from(1u8), SubscriptionID::Window);
    assert_eq!(SubscriptionID::from(2u8), SubscriptionID::Wifi);
    assert_eq!(SubscriptionID::from(3u8), SubscriptionID::Bluetooth);
    for byte in 4..=255u8 {
        assert_eq!(SubscriptionID::from(byte), SubscriptionID::Invalid);
    }
    assert!(SubscriptionID::Wifi.is_feed());
    assert!(!SubscriptionID::Invalid.is_feed());
    assert_eq!(SubscriptionID::Bluetooth.name(), "Bluetooth");
}

#[test]
fn client_info_payload_bytes() {
    let info = ClientInfo::new(12345, SubscriptionID::Window);
    assert_eq!(info.encode(), vec![1u8, 0x39, 0x30, 0x00, 0x00]);
    assert_eq!(ClientInfo::byte_size(), 5);
    let message = HyprvisorMessage::subscription(info);
    assert_eq!(message.message_type, MessageType::Subscription);
    assert_eq!(message.header, 5);
    assert_eq!(message.payload, vec![1u8, 0x39, 0x30, 0x00, 0x00]);
}

#[test]
fn client_info_roundtrip() {
    for kind in [
        SubscriptionID::Workspaces,
        SubscriptionID::Window,
        SubscriptionID::Wifi,
        SubscriptionID::Bluetooth,
    ] {
        for pid in [0u32, 1, 255, 256, 12345, 0x0102_0304, u32::MAX] {
            let info = ClientInfo::new(pid, kind);
            assert_eq!(ClientInfo::decode(&info.encode()), Ok(info));
        }
    }
}

#[test]
fn client_info_rejects_wrong_length() {
    assert_eq!(ClientInfo::decode(&[]), Err(HyprvisorError::InvalidMessage));
    assert_eq!(ClientInfo::decode(&[1, 2, 3, 4]), Err(HyprvisorError::InvalidMessage));
    assert_eq!(ClientInfo::decode(&[1, 2, 3, 4, 5, 6]), Err(HyprvisorError::InvalidMessage));
}

#[test]
fn client_info_unknown_kind_is_invalid() {
    let info = ClientInfo::decode(&[9, 1, 0, 0, 0]).unwrap();
    assert_eq!(info.subscription_id, SubscriptionID::Invalid);
    assert_eq!(info.process_id, 1);
}

#[test]
fn command_bytes() {
    assert_eq!(u8::from(CommandOpts::Ping), 0);
    assert_eq!(u8::from(CommandOpts::Kill), 1);
    assert_eq!(CommandOpts::try_from(0u8), Ok(CommandOpts::Ping));
    assert_eq!(CommandOpts::try_from(1u8), Ok(CommandOpts::Kill));
    assert_eq!(CommandOpts::try_from(2u8), Err(HyprvisorError::ParseError));
    assert_eq!(CommandOpts::Ping.name(), "Ping");
    assert_eq!(CommandOpts::Kill.name(), "Kill");
}

#[test]
fn error_messages() {
    assert_eq!(HyprvisorError::DaemonRunning.message(), "Daemon is already running");
    assert_eq!(HyprvisorError::NoDaemon.message(), "No daemon found");
    assert_eq!(HyprvisorError::IpcError.message(), "Inter-processes communication error");
    assert_eq!(HyprvisorError::InvalidSubscription.message(), "Invalid subscription");
    assert!(HyprvisorError::NoSubscriber.is_benign());
    assert!(HyprvisorError::FalseAlarm.is_benign());
    assert!(!HyprvisorError::IpcError.is_benign());
}
