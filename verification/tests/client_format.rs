use hyprvisor::bluetooth::{BluetoothDeviceInfo, BluetoothInfo};
use hyprvisor::client::{
    format_wifi, format_window, format_workspaces, parse_response, ping_daemon, send_command,
    Client, FormattedInfo,
};
use hyprvisor::error::HyprvisorError;
use hyprvisor::hyprland::window::HyprWindowInfo;
use hyprvisor::hyprland::workspace::HyprWorkspaceInfo;
use hyprvisor::message::{HyprvisorMessage, MessageType};
use hyprvisor::opts::{parse_opts, Action, CommandOpts, Opts, SubscribeOpts};
use hyprvisor::subscription::{ClientInfo, SubscriptionID};
use hyprvisor::text::{same_bytes, same_text, shorten};
use hyprvisor::wifi::{WifiInfo, WifiState};

fn workspace(id: u32, occupied: bool, active: bool) -> HyprWorkspaceInfo {
    HyprWorkspaceInfo { id, occupied, active }
}

fn ids(list: &[HyprWorkspaceInfo]) -> Vec<u32> {
    list.iter().map(|entry| entry.id).collect()
}

#[test]
fn pad_one_workspace_to_five() {
    assert_eq!(
        format_workspaces(vec![workspace(3, true, true)], 5),
        vec![
            workspace(1, false, false),
            workspace(2, false, false),
            workspace(3, true, true),
            workspace(4, false, false),
            workspace(5, false, false),
        ]
    );
}

#[test]
fn pad_with_zero_changes_nothing() {
    let list = vec![workspace(9, true, false), workspace(3, true, true), workspace(3, false, false)];
    assert_eq!(format_workspaces(list.clone(), 0), list);
    assert_eq!(format_workspaces(vec![], 0), vec![]);
}

#[test]
fn pad_an_empty_list() {
    assert_eq!(
        format_workspaces(vec![], 3),
        vec![workspace(1, false, false), workspace(2, false, false), workspace(3, false, false)]
    );
}

#[test]
fn pad_a_full_list_in_any_order() {
    let list = vec![workspace(2, true, false), workspace(3, false, true), workspace(1, true, false)];
    assert_eq!(
        format_workspaces(list, 3),
        vec![workspace(1, true, false), workspace(2, true, false), workspace(3, false, true)]
    );
}

#[test]
fn pad_keeps_higher_ids_sorted_behind() {
    let list = vec![
        workspace(12, true, false),
        workspace(2, true, true),
        workspace(7, false, false),
        workspace(12, false, false),
        workspace(5, true, false),
    ];
    assert_eq!(
        format_workspaces(list, 3),
        vec![
            workspace(1, false, false),
            workspace(2, true, true),
            workspace(3, false, false),
            workspace(5, true, false),
            workspace(7, false, false),
            workspace(12, true, false),
            workspace(12, false, false),
        ]
    );
}

#[test]
fn pad_takes_the_first_entry_of_an_id() {
    let list = vec![workspace(1, true, false), workspace(1, false, true)];
    assert_eq!(
        format_workspaces(list, 2),
        vec![workspace(1, true, false), workspace(2, false, false)]
    );
}

#[test]
fn pad_drops_the_id_zero() {
    assert_eq!(
        format_workspaces(vec![workspace(0, true, true), workspace(1, true, false)], 1),
        vec![workspace(1, true, false)]
    );
}

#[test]
fn pad_every_count_up_to_ten() {
    let list = vec![workspace(4, true, false), workspace(2, false, true)];
    for fix in 4..=10u32 {
        let shown = format_workspaces(list.clone(), fix);
        assert_eq!(shown.len(), fix as usize);
        assert_eq!(ids(&shown), (1..=fix).collect::<Vec<u32>>());
        assert_eq!(shown[3], workspace(4, true, false));
        assert_eq!(shown[1], workspace(2, false, true));
        for (index, entry) in shown.iter().enumerate() {
            if index != 1 && index != 3 {
                assert_eq!(*entry, HyprWorkspaceInfo::default_workspace(index as u32 + 1));
            }
        }
    }
}

#[test]
fn shorten_cuts_and_marks() {
    assert_eq!(shorten("Mozilla Firefox", 7), "Mozilla...");
    assert_eq!(shorten("abc", 0), "...");
    assert_eq!(shorten("abc", 3), "abc...");
    assert_eq!(shorten("", 0), "...");
}

#[test]
fn shorten_leaves_short_texts() {
    assert_eq!(shorten("abc", 4), "abc");
    assert_eq!(shorten("", 1), "");
    assert_eq!(shorten("abc", u32::MAX), "abc");
}

#[test]
fn shorten_never_cuts_a_character() {
    assert_eq!(shorten("caf\u{e9}s", 3), "caf...");
    assert_eq!(shorten("caf\u{e9}s", 4), "caf\u{e9}s");
    assert_eq!(shorten("caf\u{e9}s", 5), "caf\u{e9}...");
    assert_eq!(shorten("\u{1f600}", 1), "\u{1f600}");
    assert_eq!(shorten("\u{1f600}", 2), "\u{1f600}");
    assert_eq!(shorten("\u{1f600}", 3), "\u{1f600}");
    assert_eq!(shorten("\u{1f600}", 4), "\u{1f600}...");
}

#[test]
fn shorten_matches_get() {
    for text in ["", "a", "hello world", "h\u{e9}llo", "\u{4e16}\u{754c}", "a\u{1f600}b"] {
        for length in 0..12u32 {
            let expected = match text.get(..length as usize) {
                Some(head) => format!("{}...", head),
                None => text.to_string(),
            };
            assert_eq!(shorten(text, length), expected);
        }
    }
}

#[test]
fn window_title_is_shortened() {
    let window = HyprWindowInfo { class: "firefox".to_string(), title: "A very long title".to_string() };
    assert_eq!(
        format_window(window.clone(), 6),
        HyprWindowInfo { class: "firefox".to_string(), title: "A very...".to_string() }
    );
    assert_eq!(format_window(window.clone(), 50), window);
}

#[test]
fn wifi_name_is_shortened() {
    let info = WifiInfo {
        state: WifiState::Connected,
        ssid: "HomeNetwork".to_string(),
        icon: "\u{f05a9}".to_string(),
    };
    assert_eq!(
        format_wifi(info.clone(), 4),
        WifiInfo {
            state: WifiState::Connected,
            ssid: "Home...".to_string(),
            icon: "\u{f05a9}".to_string(),
        }
    );
    assert_eq!(format_wifi(info.clone(), 25), info);
}

#[test]
fn text_comparisons() {
    assert!(same_text("", ""));
    assert!(same_text("connected", "connected"));
    assert!(!same_text("connected", "connecte"));
    assert!(!same_text("connected", "connecteD"));
    assert!(same_text("\u{e9}", "\u{e9}"));
    assert!(!same_text("\u{e9}", "e"));
    assert!(same_bytes(b"ab", b"ab"));
    assert!(!same_bytes(b"ab", b"ba"));
    assert!(!same_bytes(b"ab", b"abc"));
    assert!(same_bytes(b"", b""));
}

#[test]
fn answer_text_from_valid_and_invalid_bytes() {
    assert_eq!(ping_daemon(HyprvisorMessage::response(vec![])), Ok(String::new()));
    assert_eq!(
        ping_daemon(HyprvisorMessage::response("caf\u{e9}".as_bytes().to_vec())),
        Ok("caf\u{e9}".to_string())
    );
    assert_eq!(ping_daemon(HyprvisorMessage::response(vec![0xff])), Err(HyprvisorError::ParseError));
    assert_eq!(
        ping_daemon(HyprvisorMessage::response(vec![b'a', 0xc3])),
        Err(HyprvisorError::ParseError)
    );
    assert_eq!(
        ping_daemon(HyprvisorMessage::response(vec![0xed, 0xa0, 0x80])),
        Err(HyprvisorError::ParseError)
    );
}

#[test]
fn parse_opts_without_a_parameter() {
    assert_eq!(
        parse_opts(SubscribeOpts::Workspaces { fix_workspace: None }),
        (SubscriptionID::Workspaces, None)
    );
    assert_eq!(parse_opts(SubscribeOpts::Window { title_length: None }), (SubscriptionID::Window, None));
    assert_eq!(parse_opts(SubscribeOpts::Wifi { ssid_length: None }), (SubscriptionID::Wifi, None));
    assert_eq!(parse_opts(SubscribeOpts::Bluetooth), (SubscriptionID::Bluetooth, None));
}

#[test]
fn parse_opts_caps_the_workspace_count_only() {
    assert_eq!(
        parse_opts(SubscribeOpts::Workspaces { fix_workspace: Some(0) }),
        (SubscriptionID::Workspaces, Some(0))
    );
    assert_eq!(
        parse_opts(SubscribeOpts::Workspaces { fix_workspace: Some(5) }),
        (SubscriptionID::Workspaces, Some(5))
    );
    assert_eq!(
        parse_opts(SubscribeOpts::Workspaces { fix_workspace: Some(10) }),
        (SubscriptionID::Workspaces, Some(10))
    );
    assert_eq!(
        parse_opts(SubscribeOpts::Workspaces { fix_workspace: Some(11) }),
        (SubscriptionID::Workspaces, Some(10))
    );
    assert_eq!(
        parse_opts(SubscribeOpts::Window { title_length: Some(0) }),
        (SubscriptionID::Window, Some(0))
    );
    assert_eq!(
        parse_opts(SubscribeOpts::Window { title_length: Some(300) }),
        (SubscriptionID::Window, Some(300))
    );
    assert_eq!(
        parse_opts(SubscribeOpts::Wifi { ssid_length: Some(u32::MAX) }),
        (SubscriptionID::Wifi, Some(u32::MAX))
    );
    assert_eq!(parse_opts(SubscribeOpts::Wifi { ssid_length: Some(7) }), (SubscriptionID::Wifi, Some(7)));
}

#[test]
fn text_is_whole_when_no_length_is_given() {
    let title = "x".repeat(50);
    let window = HyprWindowInfo { class: "firefox".to_string(), title: title.clone() };
    let client = Client::from_opts(1, SubscribeOpts::Window { title_length: None });
    assert_eq!(client.extra_data, None);
    assert_eq!(client.show(window.clone()), window);
    assert_eq!(window.clone().formatted(&None), window);
    let long = HyprWindowInfo { class: "firefox".to_string(), title: "y".repeat(4000) };
    assert_eq!(client.show(long.clone()), long);

    let info = WifiInfo {
        state: WifiState::Connected,
        ssid: "A network name of more than 25 bytes".to_string(),
        icon: "\u{f05a9}".to_string(),
    };
    let client = Client::from_opts(1, SubscribeOpts::Wifi { ssid_length: None });
    assert_eq!(client.extra_data, None);
    assert_eq!(client.show(info.clone()), info);

    let list = vec![workspace(9, true, false), workspace(3, true, true)];
    let client = Client::from_opts(1, SubscribeOpts::Workspaces { fix_workspace: None });
    assert_eq!(client.extra_data, None);
    assert_eq!(client.show(list.clone()), list);
}

#[test]
fn text_is_cut_when_a_length_is_given() {
    let window = HyprWindowInfo { class: "firefox".to_string(), title: "x".repeat(50) };
    let client = Client::from_opts(1, SubscribeOpts::Window { title_length: Some(50) });
    assert_eq!(client.show(window.clone()).title, format!("{}...", "x".repeat(50)));
    let client = Client::from_opts(1, SubscribeOpts::Window { title_length: Some(300) });
    let long = HyprWindowInfo { class: "firefox".to_string(), title: "y".repeat(400) };
    assert_eq!(client.show(long).title, format!("{}...", "y".repeat(300)));
    let client = Client::from_opts(1, SubscribeOpts::Window { title_length: Some(51) });
    assert_eq!(client.show(window.clone()), window);
    let client = Client::from_opts(1, SubscribeOpts::Workspaces { fix_workspace: Some(12) });
    assert_eq!(client.show(vec![workspace(3, true, true)]).len(), 10);
}

#[test]
fn opts_hold_what_was_asked() {
    let opts = Opts { verbose: true, action: Action::Command(CommandOpts::Kill) };
    assert!(opts.verbose);
    assert_eq!(opts.action, Action::Command(CommandOpts::Kill));
    assert_ne!(opts.action, Action::Daemon);
    assert_ne!(opts.action, Action::Listen(SubscribeOpts::Bluetooth));
}

#[test]
fn client_subscribes_with_its_pid() {
    let client = Client::new(12345, SubscriptionID::Window, Some(40));
    assert_eq!(client.client_info, ClientInfo::new(12345, SubscriptionID::Window));
    assert_eq!(client.extra_data, Some(40));
    let message = client.subscribe();
    assert_eq!(message.message_type, MessageType::Subscription);
    assert_eq!(message.header, 5);
    assert_eq!(message.payload, vec![1u8, 0x39, 0x30, 0, 0]);
    assert_eq!(
        message.encode(),
        vec![1u8, 5, 0, 0, 0, 0, 0, 0, 0, 1, 0x39, 0x30, 0, 0]
    );
}

#[test]
fn client_from_options() {
    let client = Client::from_opts(7, SubscribeOpts::Workspaces { fix_workspace: Some(12) });
    assert_eq!(client, Client::new(7, SubscriptionID::Workspaces, Some(10)));
    let client = Client::from_opts(8, SubscribeOpts::Bluetooth);
    assert_eq!(client, Client::new(8, SubscriptionID::Bluetooth, None));
    let client = Client::from_opts(9, SubscribeOpts::Window { title_length: None });
    assert_eq!(client, Client::new(9, SubscriptionID::Window, None));
}

#[test]
fn update_payload_of_a_valid_message() {
    assert_eq!(parse_response(HyprvisorMessage::response(vec![1, 2, 3])), Ok(vec![1, 2, 3]));
    assert_eq!(parse_response(HyprvisorMessage::response(vec![])), Ok(vec![]));
    let broken = HyprvisorMessage { message_type: MessageType::Response, header: 4, payload: vec![1] };
    assert_eq!(parse_response(broken), Err(HyprvisorError::InvalidMessage));
}

#[test]
fn ping_answers() {
    assert_eq!(ping_daemon(HyprvisorMessage::text_response("Pong")), Ok("Pong".to_string()));
    assert_eq!(
        ping_daemon(HyprvisorMessage::command(CommandOpts::Ping)),
        Err(HyprvisorError::InvalidResponse)
    );
    assert_eq!(
        ping_daemon(HyprvisorMessage::subscription(ClientInfo::new(1, SubscriptionID::Wifi))),
        Err(HyprvisorError::InvalidResponse)
    );
    assert_eq!(
        ping_daemon(HyprvisorMessage::response(vec![0xff, 0xfe])),
        Err(HyprvisorError::ParseError)
    );
    let lying = HyprvisorMessage { message_type: MessageType::Response, header: 9, payload: b"Pong".to_vec() };
    assert_eq!(ping_daemon(lying), Err(HyprvisorError::InvalidResponse));
    let lying_command = HyprvisorMessage { message_type: MessageType::Command, header: 0, payload: vec![0] };
    assert_eq!(ping_daemon(lying_command), Err(HyprvisorError::InvalidResponse));
}

#[test]
fn command_answers() {
    assert_eq!(
        send_command(HyprvisorMessage::text_response("Server is shutting down...")),
        Ok("Server is shutting down...".to_string())
    );
    let lying = HyprvisorMessage { message_type: MessageType::Response, header: 9, payload: b"Pong".to_vec() };
    assert_eq!(send_command(lying), Err(HyprvisorError::InvalidResponse));
    assert_eq!(
        send_command(HyprvisorMessage::response(vec![0xc0, 0x80])),
        Err(HyprvisorError::ParseError)
    );
    assert_eq!(send_command(HyprvisorMessage::command(CommandOpts::Ping)), Ok("\u{0}".to_string()));
}

#[test]
fn every_snapshot_can_be_formatted() {
    let window = HyprWindowInfo { class: "kitty".to_string(), title: "terminal".to_string() };
    assert_eq!(
        window.clone().formatted(&Some(4)),
        HyprWindowInfo { class: "kitty".to_string(), title: "term...".to_string() }
    );
    assert_eq!(
        window.clone().formatted(&Some(0)),
        HyprWindowInfo { class: "kitty".to_string(), title: "...".to_string() }
    );
    assert_eq!(window.clone().formatted(&None), window);
    assert_eq!(
        vec![workspace(2, true, true)].formatted(&Some(2)),
        vec![workspace(1, false, false), workspace(2, true, true)]
    );
    assert_eq!(vec![workspace(2, true, true)].formatted(&Some(0)), vec![workspace(2, true, true)]);
    assert_eq!(vec![workspace(2, true, true)].formatted(&None), vec![workspace(2, true, true)]);
    let info = WifiInfo { state: WifiState::Connected, ssid: "net".to_string(), icon: String::new() };
    assert_eq!(
        info.clone().formatted(&Some(2)),
        WifiInfo { state: WifiState::Connected, ssid: "ne...".to_string(), icon: String::new() }
    );
    assert_eq!(info.clone().formatted(&None), info);
    let bluetooth = BluetoothInfo {
        powered: true,
        connected_devices: vec![BluetoothDeviceInfo {
            name: "A long device name".to_string(),
            address: [1, 2, 3, 4, 5, 6],
        }],
    };
    assert_eq!(bluetooth.clone().formatted(&Some(3)), bluetooth);
    assert_eq!(bluetooth.clone().formatted(&None), bluetooth);
}
