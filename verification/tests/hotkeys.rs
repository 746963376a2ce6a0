use crosszones::hotkeys::{unregister_hotkey_action, HotkeyBinding};
use crosszones::snapping::action::LayoutAction;

fn binding(shortcut: &str, action: &str) -> HotkeyBinding {
    HotkeyBinding { shortcut: shortcut.to_string(), action: action.to_string() }
}

#[test]
fn unbinding_takes_the_first_binding_to_the_action() {
    let mut bindings = vec![
        binding("ctrl+1", "left-half"),
        binding("ctrl+2", "right-half"),
        binding("ctrl+3", "left-half"),
    ];
    assert_eq!(unregister_hotkey_action(&mut bindings, &LayoutAction::LeftHalf), Some("ctrl+1".to_string()));
    assert_eq!(bindings, vec![binding("ctrl+2", "right-half"), binding("ctrl+3", "left-half")]);
    assert_eq!(unregister_hotkey_action(&mut bindings, &LayoutAction::LeftHalf), Some("ctrl+3".to_string()));
    assert_eq!(bindings, vec![binding("ctrl+2", "right-half")]);
}

#[test]
fn unbinding_an_unbound_action_changes_nothing() {
    let mut bindings = vec![binding("ctrl+1", "left-half")];
    assert_eq!(unregister_hotkey_action(&mut bindings, &LayoutAction::Maximize), None);
    assert_eq!(bindings, vec![binding("ctrl+1", "left-half")]);
    let mut none: Vec<HotkeyBinding> = vec![];
    assert_eq!(unregister_hotkey_action(&mut none, &LayoutAction::Maximize), None);
}

#[test]
fn an_action_with_data_is_unbound_by_its_name() {
    let mut bindings = vec![binding("alt+z", "apply-zone"), binding("alt+l", "activate-layout")];
    assert_eq!(unregister_hotkey_action(&mut bindings, &LayoutAction::ApplyZone(9)), Some("alt+z".to_string()));
    assert_eq!(
        unregister_hotkey_action(&mut bindings, &LayoutAction::ActivateLayout("x".to_string())),
        Some("alt+l".to_string())
    );
    assert!(bindings.is_empty());
}
