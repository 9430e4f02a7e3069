use tnotes::notes::NoteListView;

fn ids(v: &NoteListView) -> Vec<String> {
    v.filtered_notes().into_iter().map(|n| n.id.clone()).collect()
}

#[test]
fn starts_on_all_notes_with_first_note_selected() {
    let v = NoteListView::new();
    assert_eq!(v.filtered_notes().len(), 7);
    assert_eq!(v.selected_note_id().map(|s| s.as_str()), Some("note-arch-spec"));
    assert_eq!(v.selected_note().map(|n| n.title.as_str()), Some("System Architecture Spec"));
    assert_eq!(v.empty_hint(), "No notes in this section");
}

#[test]
fn sections_filter_by_pin_and_folder_prefix() {
    let mut v = NoteListView::new();
    v.set_filter("favorites".into(), "Favorites".into());
    assert_eq!(ids(&v), vec!["note-arch-spec", "note-desktop-gpui"]);
    v.set_filter("trash".into(), "Trash".into());
    assert!(v.filtered_notes().is_empty());
    v.set_filter("projects".into(), "Projects".into());
    assert_eq!(ids(&v), vec!["note-arch-spec", "note-desktop-gpui", "note-db-schema", "note-ws-sync"]);
    v.set_filter("projects:architecture".into(), "Architecture".into());
    assert_eq!(ids(&v), vec!["note-arch-spec", "note-desktop-gpui"]);
    v.set_filter("proj".into(), "Proj".into());
    assert!(v.filtered_notes().is_empty());
}

#[test]
fn search_matches_title_snippet_and_folder_ignoring_case() {
    let mut v = NoteListView::new();
    v.set_search_query("  WEBSOCKET ".into());
    assert_eq!(ids(&v), vec!["note-ws-sync"]);
    v.set_search_query("crdt".into());
    assert_eq!(ids(&v), vec!["note-arch-spec"]);
    v.set_search_query("personal".into());
    assert_eq!(ids(&v), vec!["note-q3-roadmap", "note-sprint-goals", "note-design-inspo"]);
    v.set_search_query("zzz".into());
    assert!(v.filtered_notes().is_empty());
    assert_eq!(v.empty_hint(), "Try a different search query");
    v.set_filter("personal".into(), "Personal".into());
    v.set_search_query("roadmap".into());
    assert_eq!(ids(&v), vec!["note-q3-roadmap"]);
}

#[test]
fn selection_follows_select_note() {
    let mut v = NoteListView::new();
    v.select_note(Some("note-ws-sync".into()));
    assert_eq!(v.selected_note().map(|n| n.id.as_str()), Some("note-ws-sync"));
    v.select_note(Some("missing".into()));
    assert!(v.selected_note().is_none());
    v.select_note(None);
    assert!(v.selected_note_id().is_none());
    assert_eq!(v.filtered_indices(), vec![0, 1, 2, 3, 4, 5, 6]);
}

#[test]
fn listed_notes_split_into_pinned_and_regular() {
    let mut v = NoteListView::new();
    let (pinned, regular) = v.pinned_and_regular();
    let p: Vec<&str> = pinned.iter().map(|&i| v.notes[i].id.as_str()).collect();
    assert_eq!(p, vec!["note-arch-spec", "note-desktop-gpui"]);
    assert_eq!(regular.len(), 5);
    assert!(regular.iter().all(|&i| !v.notes[i].is_pinned));
    v.set_filter("personal".into(), "Personal".into());
    let (pinned, regular) = v.pinned_and_regular();
    assert!(pinned.is_empty());
    assert_eq!(regular.len(), 3);
}
