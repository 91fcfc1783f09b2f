use keyaura::tray::{
    force_connection, menu_action, pin_label, visibility_label, visibility_label_for_event,
    visibility_label_for_field, MenuAction,
};

#[test]
fn pin_and_visibility_labels_name_the_next_action() {
    assert_eq!(pin_label(true), "Pin keyboard");
    assert_eq!(pin_label(false), "Unpin keyboard");
    assert_eq!(visibility_label(true), "Show keyboard");
    assert_eq!(visibility_label(false), "Hide keyboard");
}

#[test]
fn menu_ids_map_to_actions() {
    assert_eq!(menu_action("settings"), MenuAction::Settings);
    assert_eq!(menu_action("pin"), MenuAction::TogglePin);
    assert_eq!(menu_action("toggle"), MenuAction::ToggleVisibility);
    assert_eq!(menu_action("legend"), MenuAction::ShowLegend);
    assert_eq!(menu_action("about"), MenuAction::ShowAbout);
    assert_eq!(menu_action("quit"), MenuAction::Quit);
    assert_eq!(menu_action("refresh"), MenuAction::Refresh);
    assert_eq!(menu_action("force-connection"), MenuAction::ForceConnection);
    assert_eq!(menu_action("devtools"), MenuAction::DevTools);
    assert_eq!(menu_action("Quit"), MenuAction::Ignore);
    assert_eq!(menu_action(""), MenuAction::Ignore);
}

#[test]
fn forcing_the_connection_flips_what_is_shown() {
    let r = force_connection(true, 2);
    assert!(!r.forced_online);
    assert_eq!(r.connection_override, 0);
    assert_eq!(r.label, "Force connected state");
    assert_eq!(r.event, "keyboard-offline");
    let r = force_connection(false, 2);
    assert!(r.forced_online);
    assert_eq!(r.connection_override, 1);
    assert_eq!(r.label, "Force disconnected state");
    assert_eq!(r.event, "keyboard-online");
    let again = force_connection(false, r.connection_override);
    assert!(!again.forced_online);
    assert_eq!(again.connection_override, 0);
    let r = force_connection(true, 0);
    assert!(r.forced_online);
}

#[test]
fn visibility_event_payloads() {
    assert_eq!(visibility_label_for_event(r#"{"hidden":true}"#), Some("Show keyboard"));
    assert_eq!(visibility_label_for_event(r#"{"hidden":false}"#), Some("Hide keyboard"));
    assert_eq!(visibility_label_for_event(r#"{"hidden":"yes"}"#), Some("Hide keyboard"));
    assert_eq!(visibility_label_for_event(r#"{}"#), Some("Hide keyboard"));
    assert_eq!(visibility_label_for_event("7"), Some("Hide keyboard"));
    assert_eq!(visibility_label_for_event("{hidden"), None);
    assert_eq!(visibility_label_for_field(Some(Some(true))), Some("Show keyboard"));
    assert_eq!(visibility_label_for_field(Some(None)), Some("Hide keyboard"));
    assert_eq!(visibility_label_for_field(None), None);
}
