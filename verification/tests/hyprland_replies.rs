use hyprvisor::error::HyprvisorError;
use hyprvisor::hyprland::listener::HyprListener;
use hyprvisor::hyprland::utils::{
    active_window_query, active_workspace_query, workspaces_query, HyprSocketType,
};
use hyprvisor::hyprland::window::{parse_window, window_from_fields, HyprWindowInfo};
use hyprvisor::hyprland::workspace::{
    get_activeworkspace_id, parse_all_workspaces, same_workspaces, workspace_from_fields,
    workspace_id, HyprWorkspaceInfo,
};

fn window(class: &str, title: &str) -> HyprWindowInfo {
    HyprWindowInfo { class: class.to_string(), title: title.to_string() }
}

fn workspace(id: u32, occupied: bool, active: bool) -> HyprWorkspaceInfo {
    HyprWorkspaceInfo { id, occupied, active }
}

#[test]
fn window_reply_with_both_fields() {
    let reply = br#"{"address":"0x55","class":"Firefox","title":"Page","pid":4242}"#;
    assert_eq!(parse_window(reply), Ok(window("Firefox", "Page")));
}

#[test]
fn window_reply_without_fields() {
    assert_eq!(parse_window(b"{}"), Ok(window("", "")));
    assert_eq!(parse_window(br#"{"class":"kitty"}"#), Ok(window("kitty", "")));
    assert_eq!(parse_window(br#"{"title":"zsh"}"#), Ok(window("", "zsh")));
}

#[test]
fn window_reply_with_fields_of_another_type() {
    assert_eq!(parse_window(br#"{"class":7,"title":null}"#), Ok(window("", "")));
    assert_eq!(parse_window(br#"{"class":["a"],"title":{"x":1}}"#), Ok(window("", "")));
}

#[test]
fn window_reply_that_is_no_object() {
    assert_eq!(parse_window(b"[1,2,3]"), Ok(window("", "")));
    assert_eq!(parse_window(b"null"), Ok(window("", "")));
    assert_eq!(parse_window(br#""class""#), Ok(window("", "")));
}

#[test]
fn window_reply_that_is_no_json() {
    assert_eq!(parse_window(b""), Err(HyprvisorError::JsonError));
    assert_eq!(parse_window(b"{"), Err(HyprvisorError::JsonError));
    assert_eq!(parse_window(b"unknown request"), Err(HyprvisorError::JsonError));
    assert_eq!(parse_window(br#"{"class":"a"} trailing"#), Err(HyprvisorError::JsonError));
    assert_eq!(parse_window(&[b'"', 0xff, b'"']), Err(HyprvisorError::JsonError));
}

#[test]
fn window_reply_with_escapes_and_unicode() {
    let reply = "{\"class\":\"a\\\"b\",\"title\":\"caf\\u00e9 \u{1f600}\"}";
    assert_eq!(parse_window(reply.as_bytes()), Ok(window("a\"b", "caf\u{e9} \u{1f600}")));
}

#[test]
fn window_from_optional_fields() {
    assert_eq!(window_from_fields(None, None), window("", ""));
    assert_eq!(window_from_fields(Some("a".to_string()), None), window("a", ""));
    assert_eq!(window_from_fields(None, Some("b".to_string())), window("", "b"));
    assert_eq!(HyprWindowInfo::default(), window("", ""));
    assert_ne!(window("a", "b"), window("a", "c"));
    assert_ne!(window("a", "b"), window("c", "b"));
    assert_eq!(window("a", "b").clone(), window("a", "b"));
}

#[test]
fn active_workspace_id_from_reply() {
    assert_eq!(get_activeworkspace_id(br#"{"id":3,"name":"3","windows":2}"#), Ok(3));
    assert_eq!(get_activeworkspace_id(b"{}"), Ok(0));
    assert_eq!(get_activeworkspace_id(br#"{"id":-1}"#), Ok(0));
    assert_eq!(get_activeworkspace_id(br#"{"id":"3"}"#), Ok(0));
    assert_eq!(get_activeworkspace_id(br#"{"id":2.0}"#), Ok(0));
    assert_eq!(get_activeworkspace_id(br#"{"id":4294967297}"#), Ok(1));
    assert_eq!(get_activeworkspace_id(b"not json"), Err(HyprvisorError::JsonError));
}

#[test]
fn workspace_id_keeps_the_low_32_bits() {
    assert_eq!(workspace_id(None), 0);
    assert_eq!(workspace_id(Some(0)), 0);
    assert_eq!(workspace_id(Some(7)), 7);
    assert_eq!(workspace_id(Some(u32::MAX as u64)), u32::MAX);
    assert_eq!(workspace_id(Some(1 << 32)), 0);
    assert_eq!(workspace_id(Some((1 << 32) + 5)), 5);
    assert_eq!(workspace_id(Some(u64::MAX)), u32::MAX);
}

#[test]
fn workspace_from_numbers() {
    assert_eq!(workspace_from_fields(Some(3), Some(2), 3), workspace(3, true, true));
    assert_eq!(workspace_from_fields(Some(3), Some(0), 3), workspace(3, false, true));
    assert_eq!(workspace_from_fields(Some(3), Some(-1), 1), workspace(3, false, false));
    assert_eq!(workspace_from_fields(Some(3), None, 1), workspace(3, false, false));
    assert_eq!(workspace_from_fields(None, Some(1), 0), workspace(0, true, true));
    assert_eq!(workspace_from_fields(None, Some(1), 2), workspace(0, true, false));
    assert_eq!(workspace_from_fields(Some(2), Some(i64::MAX), 2), workspace(2, true, true));
}

#[test]
fn workspaces_from_replies() {
    let all = br#"[{"id":1,"name":"1","windows":2},{"id":2,"name":"2","windows":0},{"id":5,"name":"5","windows":1}]"#;
    let active = br#"{"id":2,"name":"2","windows":0}"#;
    assert_eq!(
        parse_all_workspaces(all, active),
        Ok(vec![workspace(1, true, false), workspace(2, false, true), workspace(5, true, false)])
    );
}

#[test]
fn workspaces_keep_the_order_of_the_reply() {
    let all = br#"[{"id":9,"windows":1},{"id":3,"windows":1},{"id":3,"windows":0}]"#;
    assert_eq!(
        parse_all_workspaces(all, br#"{"id":3}"#),
        Ok(vec![workspace(9, true, false), workspace(3, true, true), workspace(3, false, true)])
    );
}

#[test]
fn workspaces_with_missing_numbers() {
    let all = br#"[{},{"id":"x","windows":"y"},7,{"id":4,"windows":1.5}]"#;
    assert_eq!(
        parse_all_workspaces(all, br#"{"id":4}"#),
        Ok(vec![
            workspace(0, false, false),
            workspace(0, false, false),
            workspace(0, false, false),
            workspace(4, false, true),
        ])
    );
    assert_eq!(parse_all_workspaces(b"[]", b"{}"), Ok(vec![]));
    assert_eq!(parse_all_workspaces(b"[{}]", b"{}"), Ok(vec![workspace(0, false, true)]));
}

#[test]
fn workspaces_reply_that_is_no_array() {
    assert_eq!(parse_all_workspaces(b"{}", b"{}"), Err(HyprvisorError::ParseError));
    assert_eq!(parse_all_workspaces(b"null", br#"{"id":1}"#), Err(HyprvisorError::ParseError));
    assert_eq!(parse_all_workspaces(b"3", br#"{"id":1}"#), Err(HyprvisorError::ParseError));
}

#[test]
fn workspaces_reply_that_is_no_json() {
    assert_eq!(parse_all_workspaces(b"[", b"{}"), Err(HyprvisorError::JsonError));
    assert_eq!(parse_all_workspaces(b"[]", b"{"), Err(HyprvisorError::JsonError));
    assert_eq!(parse_all_workspaces(b"{}", b"{"), Err(HyprvisorError::JsonError));
    assert_eq!(parse_all_workspaces(b"", b""), Err(HyprvisorError::JsonError));
}

#[test]
fn workspace_lists_compare_by_value() {
    let first = vec![workspace(1, true, false), workspace(2, false, true)];
    assert!(same_workspaces(&first, &first.clone()));
    assert!(!same_workspaces(&first, &vec![workspace(2, false, true), workspace(1, true, false)]));
    assert!(!same_workspaces(&first, &vec![workspace(1, true, false)]));
    assert!(!same_workspaces(&first, &vec![workspace(1, true, false), workspace(2, true, true)]));
    assert!(same_workspaces(&vec![], &vec![]));
    assert_eq!(HyprWorkspaceInfo::default_workspace(4), workspace(4, false, false));
}

#[test]
fn listener_starts_empty() {
    let listener = HyprListener::new();
    assert_eq!(listener.current_window, window("", ""));
    assert!(listener.current_workspace.is_empty());
}

#[test]
fn listener_publishes_changes_only() {
    let mut listener = HyprListener::new();
    assert_eq!(listener.handle_window(window("", "")), Err(HyprvisorError::FalseAlarm));
    assert_eq!(listener.handle_window(window("Firefox", "Page")), Ok(()));
    assert_eq!(listener.current_window, window("Firefox", "Page"));
    assert_eq!(listener.handle_window(window("Firefox", "Page")), Err(HyprvisorError::FalseAlarm));
    assert_eq!(listener.handle_window(window("Firefox", "Other")), Ok(()));
    assert_eq!(listener.handle_window(window("Firefox", "Page")), Ok(()));
    assert!(listener.current_workspace.is_empty());

    assert_eq!(listener.handle_workspaces(vec![]), Err(HyprvisorError::FalseAlarm));
    assert_eq!(listener.handle_workspaces(vec![workspace(1, true, true)]), Ok(()));
    assert_eq!(
        listener.handle_workspaces(vec![workspace(1, true, true)]),
        Err(HyprvisorError::FalseAlarm)
    );
    assert_eq!(listener.handle_workspaces(vec![workspace(1, true, false)]), Ok(()));
    assert_eq!(listener.current_workspace, vec![workspace(1, true, false)]);
    assert_eq!(listener.current_window, window("Firefox", "Page"));
}

#[test]
fn hyprland_queries_and_socket_names() {
    assert_eq!(active_window_query(), "j/activewindow");
    assert_eq!(active_workspace_query(), "j/activeworkspace");
    assert_eq!(workspaces_query(), "j/workspaces");
    assert_eq!(HyprSocketType::Command.socket_name(), ".socket.sock");
    assert_eq!(HyprSocketType::Event.socket_name(), ".socket2.sock");
}
