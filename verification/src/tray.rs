//! Decisions of the menu-bar menu: item labels, which action an item id
//! names, and the debug switch that forces the connection display.

use vstd::prelude::*;
use crate::text::str_eq;

verus! {

/// The label of the pin item: it names the action it performs, so it reads
/// "Pin keyboard" while the overlay is unpinned for moving.
pub open spec fn pin_label_of(unpinned: bool) -> Seq<char> {
    if unpinned {
        "Pin keyboard"@
    } else {
        "Unpin keyboard"@
    }
}

/// The label of the visibility item: "Show keyboard" while hidden.
pub open spec fn visibility_label_of(hidden: bool) -> Seq<char> {
    if hidden {
        "Show keyboard"@
    } else {
        "Hide keyboard"@
    }
}

/// The label of the pin item for the stored pin flag (whose legacy name is
/// `overlay_pinned`; `true` means unpinned for moving).
pub fn pin_label(unpinned: bool) -> (label: &'static str)
    ensures
        label@ == pin_label_of(unpinned),
{
    if unpinned {
        "Pin keyboard"
    } else {
        "Unpin keyboard"
    }
}

/// The label of the visibility item.
pub fn visibility_label(hidden: bool) -> (label: &'static str)
    ensures
        label@ == visibility_label_of(hidden),
{
    if hidden {
        "Show keyboard"
    } else {
        "Hide keyboard"
    }
}

/// What parsing `text` as JSON says of the field `key`: `None` when the text
/// is not JSON, otherwise the field's value when the top level is an object
/// whose field `key` is a boolean, and `Some(None)` when it is not.
pub uninterp spec fn json_bool_field_of(text: Seq<char>, key: Seq<char>) -> Option<Option<bool>>;

/// Parses `text` with `serde_json::from_str` into a `serde_json::Value`,
/// asks `Value::get` for `key` and `Value::as_bool` for its value. The
/// contract claims only that the result is a function of the text and the
/// key; what JSON parsing accepts is not stated.
#[verifier::external_body]
fn json_bool_field(text: &str, key: &str) -> (r: Option<Option<bool>>)
    ensures
        r == json_bool_field_of(text@, key@),
{
    match serde_json::from_str::<serde_json::Value>(text) {
        Ok(value) => Some(
            match value.get(key) {
                Some(field) => field.as_bool(),
                None => None,
            },
        ),
        Err(_) => None,
    }
}

/// The visibility label for a read `hidden` field: nothing when the payload
/// was not JSON, otherwise the label for "hidden" exactly when the field is
/// `true`.
pub fn visibility_label_for_field(hidden: Option<Option<bool>>) -> (label: Option<&'static str>)
    ensures
        label is Some <==> hidden is Some,
        label matches Some(l) ==> l@ == visibility_label_of(hidden->0 == Some(true)),
{
    match hidden {
        Some(field) => Some(
            visibility_label(
                match field {
                    Some(h) => h,
                    None => false,
                },
            ),
        ),
        None => None,
    }
}

/// The visibility label for an "overlay-visibility" event payload such as
/// `{"hidden": true}`; nothing when the payload is not JSON.
pub fn visibility_label_for_event(payload: &str) -> (label: Option<&'static str>)
    ensures
        label is Some <==> json_bool_field_of(payload@, "hidden"@) is Some,
        label matches Some(l) ==> l@ == visibility_label_of(
            json_bool_field_of(payload@, "hidden"@)->0 == Some(true),
        ),
{
    visibility_label_for_field(json_bool_field(payload, "hidden"))
}

/// The actions the menu offers.
#[derive(Clone, Copy, Debug, PartialEq, Eq, Structural)]
pub enum MenuAction {
    Settings,
    TogglePin,
    ToggleVisibility,
    ShowLegend,
    ShowAbout,
    Quit,
    /// Debug builds: reload the layout.
    Refresh,
    /// Debug builds: flip the forced connection display.
    ForceConnection,
    /// Debug builds: open the web inspectors.
    DevTools,
    /// An id the menu does not hold.
    Ignore,
}

/// The action that a menu item id names.
pub open spec fn menu_action_of(id: Seq<char>) -> MenuAction {
    if id == "settings"@ {
        MenuAction::Settings
    } else if id == "pin"@ {
        MenuAction::TogglePin
    } else if id == "toggle"@ {
        MenuAction::ToggleVisibility
    } else if id == "legend"@ {
        MenuAction::ShowLegend
    } else if id == "about"@ {
        MenuAction::ShowAbout
    } else if id == "quit"@ {
        MenuAction::Quit
    } else if id == "refresh"@ {
        MenuAction::Refresh
    } else if id == "force-connection"@ {
        MenuAction::ForceConnection
    } else if id == "devtools"@ {
        MenuAction::DevTools
    } else {
        MenuAction::Ignore
    }
}

/// Reads a menu item id.
pub fn menu_action(id: &str) -> (action: MenuAction)
    ensures
        action == menu_action_of(id@),
{
    if str_eq(id, "settings") {
        MenuAction::Settings
    } else if str_eq(id, "pin") {
        MenuAction::TogglePin
    } else if str_eq(id, "toggle") {
        MenuAction::ToggleVisibility
    } else if str_eq(id, "legend") {
        MenuAction::ShowLegend
    } else if str_eq(id, "about") {
        MenuAction::ShowAbout
    } else if str_eq(id, "quit") {
        MenuAction::Quit
    } else if str_eq(id, "refresh") {
        MenuAction::Refresh
    } else if str_eq(id, "force-connection") {
        MenuAction::ForceConnection
    } else if str_eq(id, "devtools") {
        MenuAction::DevTools
    } else {
        MenuAction::Ignore
    }
}

/// What the connection display shows: an override of 0 forces it offline,
/// 1 forces it online, anything else shows the keyboard's real state.
pub open spec fn shown_online(actual_online: bool, connection_override: u8) -> bool {
    if connection_override == 0 {
        false
    } else if connection_override == 1 {
        true
    } else {
        actual_online
    }
}

/// What one use of the forced-connection switch does.
pub struct ForceConnection {
    /// Whether the display is now forced online.
    pub forced_online: bool,
    /// The override to store: 1 when forced online, 0 when forced offline.
    pub connection_override: u8,
    /// The item's new label, naming what the next use will do.
    pub label: &'static str,
    /// The event announced to the overlay.
    pub event: &'static str,
}

/// Flips the connection display from what it shows now.
pub fn force_connection(actual_online: bool, connection_override: u8) -> (r: ForceConnection)
    ensures
        r.forced_online == !shown_online(actual_online, connection_override),
        r.connection_override == (if r.forced_online { 1u8 } else { 0u8 }),
        r.label@ == (if r.forced_online {
            "Force disconnected state"@
        } else {
            "Force connected state"@
        }),
        r.event@ == (if r.forced_online {
            "keyboard-online"@
        } else {
            "keyboard-offline"@
        }),
{
    let effective = if connection_override == 0 {
        false
    } else if connection_override == 1 {
        true
    } else {
        actual_online
    };
    let forced_online = !effective;
    ForceConnection {
        forced_online,
        connection_override: if forced_online { 1 } else { 0 },
        label: if forced_online {
            "Force disconnected state"
        } else {
            "Force connected state"
        },
        event: if forced_online {
            "keyboard-online"
        } else {
            "keyboard-offline"
        },
    }
}

/// Using the forced-connection switch twice returns the display to what it
/// first showed, and from then on it stays forced.
pub proof fn lemma_force_connection_alternates(actual_online: bool, connection_override: u8)
    ensures
        ({
            let first = !shown_online(actual_online, connection_override);
            let stored: u8 = if first { 1u8 } else { 0u8 };
            let second = !shown_online(actual_online, stored);
            &&& shown_online(actual_online, stored) == first
            &&& second == shown_online(actual_online, connection_override)
        }),
{
}

/// The pin label always names the opposite of the current state, so a
/// failed save that restores the previous state restores the previous label.
pub proof fn lemma_pin_labels_differ(unpinned: bool)
    ensures
        pin_label_of(unpinned) != pin_label_of(!unpinned),
{
    reveal_strlit("Pin keyboard");
    reveal_strlit("Unpin keyboard");
    assert("Pin keyboard"@.len() != "Unpin keyboard"@.len());
}

/// An override of 0 (forced offline) is switched to forced online, an
/// override of 1 to forced offline, and otherwise the display is forced to
/// the opposite of the keyboard's real state.
pub proof fn lemma_force_connection_meaning(actual_online: bool, connection_override: u8)
    ensures
        connection_override == 0 ==> !shown_online(actual_online, connection_override),
        connection_override == 1 ==> shown_online(actual_online, connection_override),
        connection_override != 0 && connection_override != 1 ==> shown_online(
            actual_online,
            connection_override,
        ) == actual_online,
{
}

} // verus!
