use tnotes::keybinding::display_keystroke;
use tnotes::settings::{SettingsSectionId, SettingsView};
use tnotes::text::{contains, eq_ignore_ascii_case, join, split, starts_with, trim, u64_to_decimal};
use tnotes::tree::{starred_indices, NoteEntry};
use tnotes::views::{
    breadcrumb_links, card_rows, count_label, dashboard_summary, dashboard_title, note_folder_label,
    notes_and_folders,
    sync_status, trash_summary, EditorSync, NoteView, StarredView,
};

fn entry(id: &str, pinned: bool, trashed: bool) -> NoteEntry {
    NoteEntry { id: id.into(), title: id.into(), folder_id: None, pinned, trashed }
}

#[test]
fn editor_reloads_only_on_selection_change() {
    let mut v = NoteView::new();
    assert!(matches!(v.sync_editor(None), EditorSync::Keep));
    assert!(matches!(v.sync_editor(Some("a".into())), EditorSync::Load { note_id } if note_id == "a"));
    assert!(matches!(v.sync_editor(Some("a".into())), EditorSync::Keep));
    assert!(matches!(v.sync_editor(Some("b".into())), EditorSync::Load { note_id } if note_id == "b"));
    assert!(matches!(v.sync_editor(None), EditorSync::Clear));
    assert!(v.loaded_note_id.is_none());
}

#[test]
fn editor_takes_focus_once() {
    let mut v = NoteView::new();
    assert!(!v.take_initial_focus(false));
    assert!(v.take_initial_focus(true));
    assert!(!v.take_initial_focus(true));
}

#[test]
fn starred_lists_pinned_live_notes() {
    let notes = vec![entry("a", true, false), entry("b", false, false), entry("c", true, true), entry("d", true, false)];
    assert_eq!(starred_indices(&notes), vec![0, 3]);
    let mut v = StarredView::new();
    v.refresh(&notes);
    assert_eq!(v.starred_indices, vec![0, 3]);
    v.refresh(&vec![]);
    assert_eq!(v.starred_indices, vec![0, 3]);
    v.mark_dirty();
    v.refresh(&vec![]);
    assert!(v.starred_indices.is_empty());
}

#[test]
fn summaries() {
    assert_eq!(notes_and_folders(12, 3), "12 notes • 3 folders");
    assert_eq!(trash_summary(0), "Trash is empty");
    assert_eq!(trash_summary(4), "4 notes");
    let (label, sub) = sync_status(&None);
    assert_eq!(label, "Offline");
    assert_eq!(sub, "This vault operates locally without a remote server");
    let (label, sub) = sync_status(&Some("https://sync.example".into()));
    assert_eq!((label, sub.as_str()), ("Connected", "https://sync.example"));
}

#[test]
fn string_helpers() {
    let v = SettingsView::new();
    assert!(v.section_matches_query(SettingsSectionId::Account, "VAULT"));
    assert!(v.section_matches_query(SettingsSectionId::Storage, "SQLite"));
    assert!(!v.section_matches_query(SettingsSectionId::Account, "sqlite"));
    assert_eq!(display_keystroke("ctrl-ß"), "Ctrl+SS");
    assert_eq!(display_keystroke("ÀLT-Ü"), "Àlt+Ü");
    assert_eq!(join(&vec!["ab".into(), "c".into()], ""), "abc");
    assert_eq!(trim("\u{a0} x y \n"), "x y");
    assert!(contains("hello world", "o w"));
    assert!(contains("abc", ""));
    assert!(!contains("abc", "abcd"));
    assert!(starts_with("projects:core", "projects:"));
    assert!(eq_ignore_ascii_case("HeLLo", "hello"));
    assert!(!eq_ignore_ascii_case("É", "é"));
    assert_eq!(split("a--b", '-'), vec!["a".to_string(), String::new(), "b".to_string()]);
    assert_eq!(join(&vec!["a".into(), "b".into()], ", "), "a, b");
    assert_eq!(u64_to_decimal(0), "0");
    assert_eq!(u64_to_decimal(18446744073709551615), "18446744073709551615");
}

#[test]
fn page_headers_and_grid() {
    assert_eq!(count_label(1, "item"), "1 item");
    assert_eq!(count_label(0, "item"), "0 items");
    assert_eq!(count_label(12, "note"), "12 notes");
    assert_eq!(dashboard_title(None), "All Notes");
    assert_eq!(dashboard_title(Some("Work".to_string())), "Work");
    assert_eq!(dashboard_summary(3, 1), "3 Notes • 1 Subfolders");
    assert_eq!(note_folder_label(None), "Notes");
    assert_eq!(note_folder_label(Some("Core".to_string())), "Core");
    assert_eq!(card_rows(0), Vec::<usize>::new());
    assert_eq!(card_rows(4), vec![4]);
    assert_eq!(card_rows(9), vec![4, 4, 1]);
    let path = vec!["a".to_string(), "a:b".to_string()];
    assert_eq!(breadcrumb_links(&path, &Some("a:b".to_string())), vec![true, false]);
    assert_eq!(breadcrumb_links(&path, &None), vec![true, true]);
}
