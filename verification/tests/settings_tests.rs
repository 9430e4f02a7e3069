use tnotes::icons::IconName;
use tnotes::keybinding::Modifiers;
use tnotes::settings::{CaptureKeyOutcome, SettingsSectionId, SettingsView};

fn no_mods() -> Modifiers {
    Modifiers { control: false, alt: false, platform: false, shift: false }
}

#[test]
fn settings_nav_lists_all_sections() {
    let mut v = SettingsView::new();
    assert_eq!(v.active_section(), SettingsSectionId::Account);
    v.select_section(SettingsSectionId::About);
    assert_eq!(v.active_section(), SettingsSectionId::About);
}

#[test]
fn settings_nav_supports_all_sections_and_workspace_groups() {
    let mut v = SettingsView::new();
    for section in SettingsSectionId::all() {
        v.select_section(section);
        assert_eq!(v.active_section(), section);
    }
    assert_eq!(SettingsSectionId::all().len(), 7);
    assert_eq!(SettingsSectionId::workspace().len(), 2);
    assert_eq!(SettingsSectionId::system().len(), 5);
}

#[test]
fn settings_search_matches_query_filters_sections() {
    let v = SettingsView::new();
    assert!(v.section_matches_query(SettingsSectionId::Sync, "sync"));
    assert!(v.section_matches_query(SettingsSectionId::Storage, "sqlite"));
    assert!(v.section_matches_query(SettingsSectionId::Developer, "benchmark"));
    assert!(v.section_matches_query(SettingsSectionId::Updates, "channel"));
    assert!(!v.section_matches_query(SettingsSectionId::Account, "xyznonexistent"));
}

#[test]
fn search_matching_ignores_case_and_blank_query_matches_all() {
    let v = SettingsView::new();
    assert!(v.section_matches_query(SettingsSectionId::About, "GitHub"));
    assert!(v.section_matches_query(SettingsSectionId::Keybindings, ""));
    assert!(!v.section_matches_query(SettingsSectionId::About, "sqlite"));
}

#[test]
fn typing_a_query_moves_to_the_first_matching_section() {
    let mut v = SettingsView::new();
    v.begin_capture("tnotes::ToggleFps", "Toggle Performance HUD");
    v.set_search_query("  vacuum ".to_string());
    assert_eq!(v.active_section(), SettingsSectionId::Storage);
    assert!(v.capturing().is_none());
    v.set_search_query("version".to_string());
    assert_eq!(v.active_section(), SettingsSectionId::Updates);
    v.set_search_query("xyznonexistent".to_string());
    assert_eq!(v.active_section(), SettingsSectionId::Updates);
    assert!(!v.has_any_match());
    v.set_search_query("   ".to_string());
    assert!(v.has_any_match());
}

#[test]
fn nav_groups_keep_only_matching_sections() {
    let mut v = SettingsView::new();
    v.set_search_query("keys".to_string());
    assert_eq!(v.matching_sections(&SettingsSectionId::workspace()), vec![SettingsSectionId::Keybindings]);
    assert!(v.matching_sections(&SettingsSectionId::system()).is_empty());
    v.set_search_query(String::new());
    assert_eq!(v.matching_sections(&SettingsSectionId::system()).len(), 5);
}

#[test]
fn section_titles_descriptions_and_icons() {
    assert_eq!(SettingsSectionId::Keybindings.title(), "Keybindings");
    assert_eq!(SettingsSectionId::Updates.title(), "Updates");
    assert_eq!(
        SettingsSectionId::Storage.description(),
        "Local database metrics, index maintenance, and vault exports."
    );
    assert_eq!(SettingsSectionId::About.icon(), IconName::CircleInfo);
    assert_eq!(SettingsSectionId::Account.icon(), IconName::User);
}

#[test]
fn settings_keybinding_capture_and_reset_flow() {
    let mut v = SettingsView::new();
    v.begin_capture("tnotes::ToggleFps", "Toggle Performance HUD");
    assert!(v.capturing().is_some(), "capture should be active");
    assert!(v.cancel_capture());
    assert!(v.capturing().is_none());
    assert!(!v.cancel_capture());

    v.begin_capture("tnotes::ToggleFps", "Toggle Performance HUD");
    v.reset_keymap();
    assert!(v.capturing().is_none());
}

#[test]
fn capture_keys_cancel_ignore_and_commit() {
    let mut v = SettingsView::new();
    assert!(matches!(v.handle_capture_key("k", no_mods()), CaptureKeyOutcome::NotCapturing));

    v.begin_capture("tnotes::FocusSearch", "Focus Search");
    assert!(matches!(v.handle_capture_key("ESCAPE", no_mods()), CaptureKeyOutcome::Cancelled));
    assert!(v.capturing().is_none());

    v.begin_capture("tnotes::FocusSearch", "Focus Search");
    let shift = Modifiers { shift: true, ..no_mods() };
    assert!(matches!(v.handle_capture_key("shift", shift), CaptureKeyOutcome::Ignored));
    let held = Modifiers { control: true, ..no_mods() };
    assert!(matches!(v.handle_capture_key("control", held), CaptureKeyOutcome::Ignored));
    assert!(v.capturing().is_some());

    let ctrl = Modifiers { control: true, ..no_mods() };
    match v.handle_capture_key("K", ctrl) {
        CaptureKeyOutcome::Commit { capture, keystroke } => {
            assert_eq!(keystroke, "ctrl-k");
            assert_eq!(capture.action_id, "tnotes::FocusSearch");
            assert!(v.capturing().is_none());
            v.finish_capture(
                capture,
                keystroke,
                &vec!["tnotes::OpenPalette".to_string(), "tnotes::Quit".to_string()],
            );
        }
        _ => panic!("expected a commit"),
    }
    let c = v.capturing().unwrap();
    assert_eq!(c.preview.as_deref(), Some("ctrl-k"));
    assert_eq!(c.conflict.as_deref(), Some("tnotes::OpenPalette, tnotes::Quit"));
    assert_eq!(c.label, "Focus Search");
    v.select_section(SettingsSectionId::About);
    assert!(v.capturing().is_none());
}

#[test]
fn capture_without_conflict_ends() {
    let mut v = SettingsView::new();
    v.begin_capture("tnotes::ToggleFps", "Toggle Performance HUD");
    match v.handle_capture_key("f9", no_mods()) {
        CaptureKeyOutcome::Commit { capture, keystroke } => {
            assert_eq!(keystroke, "f9");
            v.finish_capture(capture, keystroke, &vec![]);
        }
        _ => panic!("expected a commit"),
    }
    assert!(v.capturing().is_none());
}

#[test]
fn section_keywords_hold_lowered_queries() {
    assert!(SettingsSectionId::Storage.keywords_contain("sqlite"));
    assert!(SettingsSectionId::Updates.keywords_contain("beta"));
    assert!(!SettingsSectionId::Account.keywords_contain("Vault"));
    assert!(SettingsSectionId::About.keywords_contain(""));
}
