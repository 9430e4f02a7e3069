use tnotes::keybinding::{
    actions_by_category, apply_captured_keystroke, binding_label, capture_hint, display_keystroke,
    finish_capture, key_row_id, key_row_value, keystroke_from_event, keystroke_with_key, ActionMeta, KeybindingCapture, Modifiers,
};

fn action(id: &str, category: &str) -> ActionMeta {
    ActionMeta {
        id: id.to_string(),
        label: id.to_string(),
        description: String::new(),
        category: category.to_string(),
        default_context: None,
    }
}

fn mods(control: bool, alt: bool, platform: bool, shift: bool) -> Modifiers {
    Modifiers { control, alt, platform, shift }
}

#[test]
fn keystroke_display_formats_badges() {
    assert_eq!(display_keystroke("ctrl-k"), "Ctrl+K");
    assert_eq!(display_keystroke("alt-left"), "Alt+Left");
    assert_eq!(display_keystroke("f3"), "F3");
    assert_eq!(display_keystroke("ctrl-shift-p"), "Ctrl+Shift+P");
}

#[test]
fn display_handles_empty_words_and_case() {
    assert_eq!(display_keystroke(""), "");
    assert_eq!(display_keystroke("ctrl--"), "Ctrl++");
    assert_eq!(display_keystroke("SUPER-ENTER"), "Super+Enter");
    assert_eq!(display_keystroke("ß-x"), "SS+X");
}

#[test]
fn actions_group_preserves_category_order() {
    let actions = vec![
        action("tnotes::OpenSettings", "General"),
        action("tnotes::ToggleFps", "General"),
        action("tnotes::NewNote", "Notes"),
        action("tnotes::NavigateBack", "Navigation"),
        action("tnotes::DeleteNote", "Notes"),
        action("tnotes::FocusSearch", "Sidebar"),
        action("tnotes::NavigateForward", "Navigation"),
        action("tnotes::ToggleSidebar", "Sidebar"),
        action("tnotes::Bold", "Editor"),
    ];
    let groups = actions_by_category(&actions);
    let names: Vec<&str> = groups.iter().map(|(cat, _)| cat.as_str()).collect();
    assert_eq!(names, vec!["General", "Notes", "Navigation", "Sidebar", "Editor"]);
    assert!(groups.iter().map(|(_, a)| a.len()).sum::<usize>() == actions.len());
    assert_eq!(groups[1].1, vec![2, 4]);
    assert_eq!(groups[2].1, vec![3, 6]);
}

#[test]
fn keystrokes_from_key_presses() {
    assert_eq!(keystroke_from_event("k", mods(true, false, false, false)).as_deref(), Some("ctrl-k"));
    assert_eq!(keystroke_from_event("Left", mods(false, true, false, false)).as_deref(), Some("alt-left"));
    assert_eq!(keystroke_from_event("p", mods(true, true, true, true)).as_deref(), Some("ctrl-alt-super-shift-p"));
    assert_eq!(keystroke_from_event("Escape", mods(true, false, false, false)), None);
    assert_eq!(keystroke_from_event("SHIFT", mods(false, false, false, true)), None);
    assert_eq!(keystroke_from_event("f3", mods(false, false, false, false)).as_deref(), Some("f3"));
}

#[test]
fn bare_modifier_presses_give_no_keystroke() {
    assert_eq!(keystroke_from_event("control", mods(true, false, false, false)), None);
    assert_eq!(keystroke_from_event("Alt", mods(false, true, false, false)), None);
    assert_eq!(keystroke_from_event("platform", mods(false, false, true, false)), None);
    assert_eq!(keystroke_from_event("FUNCTION", mods(false, false, false, false)), None);
    assert_eq!(keystroke_from_event("shift", mods(false, false, false, true)), None);
    assert_eq!(keystroke_from_event("a", mods(false, true, false, false)).as_deref(), Some("alt-a"));
}

#[test]
fn captured_keystroke_shows_as_badge() {
    let k = keystroke_from_event("K", mods(true, false, false, true)).unwrap();
    assert_eq!(display_keystroke(&k), "Ctrl+Shift+K");
}

#[test]
fn conflicts_exclude_the_rebound_action() {
    let hits = vec!["tnotes::FocusSearch".to_string(), "tnotes::OpenPalette".to_string(), "tnotes::FocusSearch".to_string()];
    assert_eq!(apply_captured_keystroke(&hits, "tnotes::FocusSearch"), vec!["tnotes::OpenPalette".to_string()]);
    assert!(apply_captured_keystroke(&vec![], "x").is_empty());
}

#[test]
fn finishing_a_capture_keeps_it_only_on_conflict() {
    let c = KeybindingCapture::new("a", "A");
    assert!(finish_capture(c, "ctrl-k".into(), &vec![]).is_none());
    let c = KeybindingCapture::new("a", "A");
    let kept = finish_capture(c, "ctrl-k".into(), &vec!["b".into(), "c".into()]).unwrap();
    assert_eq!(kept.conflict.as_deref(), Some("b, c"));
    assert_eq!(kept.preview.as_deref(), Some("ctrl-k"));
    assert_eq!(kept.label, "A");
}

#[test]
fn hints_and_binding_labels() {
    let c = KeybindingCapture::new("tnotes::ToggleFps", "Toggle Performance HUD");
    assert_eq!(capture_hint(&c), "Press keystroke for “Toggle Performance HUD”");
    let c = finish_capture(c, "f3".into(), &vec!["tnotes::Other".into()]).unwrap();
    assert_eq!(capture_hint(&c), "Bound to f3 — also used by tnotes::Other. Press Esc to dismiss.");
    assert_eq!(binding_label(None), "Unbound");
    assert_eq!(binding_label(Some(("ctrl-k".into(), None))), "Ctrl+K");
    assert_eq!(binding_label(Some(("alt-left".into(), Some("Editor".into())))), "Alt+Left · Editor");
}

#[test]
fn keystroke_joins_modifiers_and_lowered_key() {
    assert_eq!(keystroke_with_key("k", mods(true, false, false, true)), "ctrl-shift-k");
    assert_eq!(keystroke_with_key("f1", mods(false, true, true, false)), "alt-super-f1");
    assert_eq!(keystroke_with_key("a", mods(false, false, false, false)), "a");
}

#[test]
fn keybinding_rows_ids_and_values() {
    assert_eq!(key_row_id("tnotes::ToggleSettings"), "settings-key-ToggleSettings");
    assert_eq!(key_row_id("editor::Save"), "settings-key-editor::Save");
    let c = KeybindingCapture::new("tnotes::Save", "Save");
    assert_eq!(key_row_value("tnotes::Save", "Ctrl+S".to_string(), Some(&c)), "Press keys…");
    assert_eq!(key_row_value("tnotes::Open", "Ctrl+O".to_string(), Some(&c)), "Ctrl+O");
    assert_eq!(key_row_value("tnotes::Save", "Ctrl+S".to_string(), None), "Ctrl+S");
}
