use tnotes::icons::{
    folder_icon_for, folder_icon_from_name, folder_icon_name, folder_icon_option, IconName,
    FOLDER_ICON_COUNT,
};
use tnotes::sidebar::{
    icon_option_selected,
    RenameKeyOutcome, RenameKind, RenameState, SidebarCommand, SidebarContextMenu, SidebarContextTarget, SidebarView,
};
use tnotes::tree::{tree_fits, tree_rows, FolderTreeNode, NoteEntry, TreeRow};

type Pos = (i32, i32);

fn folder(id: &str, name: &str, parent: Option<&str>, depth: usize) -> FolderTreeNode {
    FolderTreeNode {
        id: id.to_string(),
        name: name.to_string(),
        icon: "folder".to_string(),
        parent_id: parent.map(|p| p.to_string()),
        depth,
    }
}

fn entry(id: &str, title: &str, folder_id: Option<&str>, pinned: bool, trashed: bool) -> NoteEntry {
    NoteEntry {
        id: id.to_string(),
        title: title.to_string(),
        folder_id: folder_id.map(|f| f.to_string()),
        pinned,
        trashed,
    }
}

/// A small vault shaped like the store's sample data.
fn seed() -> (Vec<FolderTreeNode>, Vec<NoteEntry>) {
    let nodes = vec![
        folder("projects", "Projects", None, 0),
        folder("projects:architecture", "Architecture", Some("projects"), 1),
        folder("projects:architecture:core", "Core Engine", Some("projects:architecture"), 2),
        folder("projects:architecture:desktop", "Desktop Shell", Some("projects:architecture"), 2),
        folder("personal", "Personal", None, 0),
    ];
    let notes = vec![
        entry("note-arch-spec", "System Architecture Spec", Some("projects:architecture:core"), true, false),
        entry("note-desktop-gpui", "Desktop Shell & GPUI Architecture", Some("projects:architecture:desktop"), true, false),
        entry("note-db-schema", "Database Schema & Index Design", Some("projects"), false, false),
        entry("note-ws-sync", "WebSocket Sync Protocol", Some("projects"), false, false),
        entry("note-q3-roadmap", "Q3 Roadmap & Planning", Some("personal"), false, false),
        entry("note-old", "Old draft", Some("personal"), false, true),
        entry("note-loose", "Loose note", None, false, false),
    ];
    (nodes, notes)
}

#[test]
fn model_types_are_reexported() {
    let _ = RenameKind::Folder;
    let _ = std::mem::size_of::<RenameState>();
    let _ = std::mem::size_of::<Option<SidebarContextMenu<Pos>>>();
    let _ = SidebarView::<Pos>::new();
}

#[test]
fn folder_icon_table_roundtrips_and_falls_back() {
    assert_eq!(FOLDER_ICON_COUNT, 17);
    assert_eq!(folder_icon_name(IconName::Briefcase), "briefcase");
    assert_eq!(folder_icon_from_name("rocket"), Some(IconName::Rocket));
    assert_eq!(folder_icon_from_name("  STAR  "), Some(IconName::Star));
    assert_eq!(folder_icon_from_name("nope"), None);
    assert_eq!(folder_icon_for("📁", true), IconName::FolderOpen);
    assert_eq!(folder_icon_for("???", false), IconName::Folder);
    assert_eq!(folder_icon_for("code", false), IconName::Code);
}

#[test]
fn every_table_icon_roundtrips_through_its_name() {
    for i in 0..FOLDER_ICON_COUNT {
        let (name, icon) = folder_icon_option(i);
        assert_eq!(folder_icon_name(icon), name);
        assert_eq!(folder_icon_from_name(name), Some(icon));
        assert_eq!(folder_icon_from_name(&name.to_uppercase()), Some(icon));
    }
    assert_eq!(folder_icon_name(IconName::FolderOpen), "folder");
    assert_eq!(folder_icon_from_name("\u{3000}heart\t"), Some(IconName::Heart));
}

#[test]
fn icon_picker_toggle_and_pick_flow() {
    let mut v: SidebarView<Pos> = SidebarView::new();
    assert!(v.picking_icon_for.is_none());

    v.toggle_icon_picker("projects", (80, 120));
    assert_eq!(
        v.picking_icon_for.as_ref().map(|p| p.folder_id.clone()),
        Some("projects".to_string())
    );
    assert_eq!(v.picking_icon_for.as_ref().map(|p| p.position), Some((80, 120)));

    v.toggle_icon_picker("projects", (80, 120));
    assert!(v.picking_icon_for.is_none());

    v.toggle_icon_picker("projects", (80, 120));
    let cmd = v.pick_folder_icon("projects", IconName::Rocket);
    assert!(v.picking_icon_for.is_none());
    match cmd {
        SidebarCommand::SetFolderIcon { folder_id, icon } => {
            assert_eq!(folder_id, "projects");
            assert_eq!(icon, "rocket");
        }
        _ => panic!("expected a folder icon change"),
    }

    v.toggle_icon_picker_at("personal", (10, 20));
    assert_eq!(v.picking_icon_for.as_ref().map(|p| p.position), Some((10, 20)));
    v.close_icon_picker();
    assert!(v.picking_icon_for.is_none());
}

#[test]
fn icon_picker_for_another_folder_moves_and_ends_rename() {
    let (nodes, _) = seed();
    let mut v: SidebarView<Pos> = SidebarView::new();
    v.begin_rename_folder("personal", &nodes);
    v.toggle_icon_picker_at("projects", (5, 6));
    assert!(v.renaming.is_none());
    v.toggle_icon_picker_at("personal", (7, 8));
    assert_eq!(
        v.picking_icon_for.as_ref().map(|p| (p.folder_id.clone(), p.position)),
        Some(("personal".to_string(), (7, 8)))
    );
}

#[test]
fn rename_commit_and_cancel_flow() {
    let (nodes, notes) = seed();
    let mut v: SidebarView<Pos> = SidebarView::new();

    v.begin_rename_folder("projects", &nodes);
    assert!(v.renaming.is_some());
    v.set_rename_value("Renamed".to_string());
    let cmd = v.commit_rename();
    assert!(v.renaming.is_none());
    match cmd {
        Some(SidebarCommand::RenameFolder { folder_id, name }) => {
            assert_eq!(folder_id, "projects");
            assert_eq!(name, "Renamed");
        }
        _ => panic!("expected a folder rename"),
    }

    v.begin_rename_note("note-db-schema", &notes);
    assert!(v.renaming.is_some());
    assert_eq!(
        v.renaming.as_ref().map(|r| r.value.clone()),
        Some("Database Schema & Index Design".to_string())
    );
    assert!(v.cancel_rename());
    assert!(v.renaming.is_none());
    assert!(v.commit_rename().is_none());
}

#[test]
fn rename_keys_commit_cancel_or_edit() {
    let (nodes, notes) = seed();
    let mut v: SidebarView<Pos> = SidebarView::new();
    v.begin_rename_note("note-db-schema", &notes);
    assert!(matches!(v.handle_rename_key("a"), RenameKeyOutcome::Edit));
    assert!(v.renaming.is_some());
    v.set_rename_value("Schema".to_string());
    match v.handle_rename_key("enter") {
        RenameKeyOutcome::Committed(Some(SidebarCommand::RenameNote { note_id, title })) => {
            assert_eq!(note_id, "note-db-schema");
            assert_eq!(title, "Schema");
        }
        _ => panic!("expected a note rename"),
    }
    assert!(v.renaming.is_none());
    v.begin_rename_folder("personal", &nodes);
    assert!(matches!(v.handle_rename_key("escape"), RenameKeyOutcome::Cancelled));
    assert!(v.renaming.is_none());
    assert!(matches!(v.handle_rename_key("enter"), RenameKeyOutcome::Committed(None)));
}

#[test]
fn rename_of_unknown_or_trashed_items_does_nothing() {
    let (nodes, notes) = seed();
    let mut v: SidebarView<Pos> = SidebarView::new();
    v.begin_rename_note("note-old", &notes);
    assert!(v.renaming.is_none());
    v.begin_rename_folder("nowhere", &nodes);
    assert!(v.renaming.is_none());
    assert!(!v.cancel_rename());
}

#[test]
fn toggle_collapsed_switches_between_expanded_and_rail() {
    let mut v: SidebarView<Pos> = SidebarView::new();
    assert!(!v.is_collapsed);
    v.toggle_collapsed();
    assert!(v.is_collapsed);
    v.toggle_collapsed();
    assert!(!v.is_collapsed);
}

#[test]
fn focus_search_expands_the_rail() {
    let mut v: SidebarView<Pos> = SidebarView::new();
    v.toggle_collapsed();
    v.focus_search();
    assert!(!v.is_collapsed);
}

#[test]
fn folder_toggle_does_not_select_folder_or_touch_menus() {
    let (nodes, notes) = seed();
    let mut v: SidebarView<Pos> = SidebarView::new();
    v.begin_rename_note("note-db-schema", &notes);
    v.toggle_folder("projects");
    assert!(v.is_folder_expanded("projects"));
    assert!(v.renaming.is_some());
    assert!(v.tree_rows_dirty);
    v.toggle_folder("projects");
    assert!(!v.is_folder_expanded("projects"));
    assert!(v.expanded_folders.is_empty());
    let _ = nodes;
}

#[test]
fn context_menu_opens_and_closes() {
    let (nodes, _) = seed();
    let mut v: SidebarView<Pos> = SidebarView::new();
    v.begin_rename_folder("projects", &nodes);
    v.open_context_menu(
        (130, 200),
        SidebarContextTarget::Note { id: "note-db-schema".into(), title: "Database".into(), is_pinned: false },
    );
    assert!(v.renaming.is_none());
    assert!(v.context_menu.is_some());
    let cmd = v.toggle_note_pin("note-db-schema");
    assert!(v.context_menu.is_none());
    assert!(matches!(cmd, SidebarCommand::ToggleNotePin { note_id } if note_id == "note-db-schema"));
    v.open_context_menu((1, 1), SidebarContextTarget::Folder { id: "projects".into(), name: "Projects".into() });
    v.toggle_collapsed();
    assert!(v.context_menu.is_none());
    v.open_context_menu((1, 1), SidebarContextTarget::Folder { id: "projects".into(), name: "Projects".into() });
    v.close_context_menu();
    assert!(v.context_menu.is_none());
}

#[test]
fn commands_close_the_menu() {
    let mut v: SidebarView<Pos> = SidebarView::new();
    let open = |v: &mut SidebarView<Pos>| {
        v.open_context_menu((0, 0), SidebarContextTarget::Folder { id: "projects".into(), name: "P".into() })
    };
    open(&mut v);
    assert!(matches!(v.create_new_note(), SidebarCommand::CreateNewNote));
    assert!(v.context_menu.is_none());
    open(&mut v);
    assert!(matches!(
        v.create_note_in_folder(Some("projects".into())),
        SidebarCommand::CreateNoteInFolder { target_folder: Some(f) } if f == "projects"
    ));
    open(&mut v);
    assert!(matches!(v.duplicate_note("n1"), SidebarCommand::DuplicateNote { note_id } if note_id == "n1"));
    open(&mut v);
    assert!(matches!(v.delete_note("n1"), SidebarCommand::DeleteNote { note_id } if note_id == "n1"));
    open(&mut v);
    assert!(matches!(v.create_top_level_folder(), SidebarCommand::CreateTopLevelFolder));
    open(&mut v);
    match v.create_subfolder("projects") {
        SidebarCommand::CreateFolder { name, parent_id } => {
            assert_eq!(name, "Untitled Folder");
            assert_eq!(parent_id, Some("projects".to_string()));
        }
        _ => panic!("expected a new folder"),
    }
    assert!(v.context_menu.is_none());
}

#[test]
fn delete_folder_forgets_expanded_subtree() {
    let mut v: SidebarView<Pos> = SidebarView::new();
    v.toggle_folder("projects");
    v.toggle_folder("projects:architecture");
    v.toggle_folder("personal");
    let subtree = vec!["projects".to_string(), "projects:architecture".to_string(), "projects:architecture:core".to_string()];
    let cmd = v.delete_folder("projects", &subtree);
    assert!(matches!(cmd, SidebarCommand::DeleteFolder { folder_id } if folder_id == "projects"));
    assert_eq!(v.expanded_folders, vec!["personal".to_string()]);
}

#[test]
fn select_section_routes_starred_and_trash() {
    let v: SidebarView<Pos> = SidebarView::new();
    assert!(matches!(v.select_section("starred"), Some(SidebarCommand::OpenStarred)));
    assert!(matches!(v.select_section("trash"), Some(SidebarCommand::OpenTrash)));
    assert!(v.select_section("all_notes").is_none());
}

#[test]
fn search_query_switches_to_results_when_not_blank() {
    let mut v: SidebarView<Pos> = SidebarView::new();
    assert!(!v.is_searching());
    v.set_search_query("   ".to_string());
    assert!(!v.is_searching());
    v.set_search_query(" schema ".to_string());
    assert!(v.is_searching());
    assert_eq!(v.search_query(), " schema ");
}

fn folder_row(row: &TreeRow) -> Option<(String, usize, bool, usize)> {
    match row {
        TreeRow::Folder { id, depth, expanded, count, .. } => Some((id.clone(), *depth, *expanded, *count)),
        TreeRow::Note { .. } => None,
    }
}

#[test]
fn collapsed_tree_shows_top_folders_and_loose_notes() {
    let (nodes, notes) = seed();
    let rows = tree_rows(&nodes, &notes, &vec![]);
    assert_eq!(rows.len(), 3);
    assert_eq!(folder_row(&rows[0]), Some(("projects".to_string(), 0, false, 4)));
    assert_eq!(folder_row(&rows[1]), Some(("personal".to_string(), 0, false, 1)));
    assert!(matches!(rows[2], TreeRow::Note { note_index: 6, depth: 0 }));
}

#[test]
fn expanding_shows_children_and_direct_notes() {
    let (nodes, notes) = seed();
    let expanded = vec!["projects".to_string(), "projects:architecture".to_string()];
    let rows = tree_rows(&nodes, &notes, &expanded);
    let ids: Vec<Option<String>> = rows.iter().map(|r| r.id(&notes)).collect();
    let ids: Vec<String> = ids.into_iter().map(|i| i.unwrap()).collect();
    assert_eq!(
        ids,
        vec![
            "projects",
            "note-db-schema",
            "note-ws-sync",
            "projects:architecture",
            "projects:architecture:core",
            "projects:architecture:desktop",
            "personal",
            "note-loose",
        ]
    );
    assert_eq!(folder_row(&rows[3]), Some(("projects:architecture".to_string(), 1, true, 2)));
    assert_eq!(folder_row(&rows[4]), Some(("projects:architecture:core".to_string(), 2, false, 1)));
    assert!(matches!(rows[1], TreeRow::Note { note_index: 2, depth: 1 }));
}

#[test]
fn collapsed_parent_hides_expanded_child() {
    let (nodes, notes) = seed();
    let expanded = vec!["projects:architecture".to_string()];
    let rows = tree_rows(&nodes, &notes, &expanded);
    assert_eq!(rows.len(), 3);
}

#[test]
fn sidebar_renders_with_scrollbar_when_overflowing() {
    let mut v: SidebarView<Pos> = SidebarView::new();
    let notes: Vec<NoteEntry> = (0..50).map(|i| entry(&format!("n{i}"), "Untitled", None, false, false)).collect();
    v.refresh_tree_rows(&vec![], &notes);
    assert!(v.tree_rows.len() >= 50);
    assert!(!v.tree_rows_dirty);
}

#[test]
fn refresh_only_rebuilds_when_needed() {
    let (nodes, notes) = seed();
    let mut v: SidebarView<Pos> = SidebarView::new();
    v.refresh_tree_rows(&nodes, &notes);
    assert_eq!(v.tree_rows.len(), 3);
    v.toggle_folder("projects");
    assert!(v.tree_rows_dirty);
    v.refresh_tree_rows(&nodes, &notes);
    assert_eq!(v.tree_rows.len(), 6);
    v.refresh_tree_rows(&nodes, &vec![]);
    assert_eq!(v.tree_rows.len(), 6);
    v.mark_tree_dirty();
    v.update_tree_rows(&vec![], &vec![]);
    assert_eq!(v.tree_rows.len(), 0);
}

#[test]
fn folder_counts_cover_whole_subtree() {
    let nodes = vec![
        folder("a", "A", None, 0),
        folder("a:b", "B", Some("a"), 1),
        folder("a:b:c", "C", Some("a:b"), 2),
        folder("d", "D", None, 0),
    ];
    let notes = vec![
        entry("n1", "1", Some("a:b:c"), false, false),
        entry("n2", "2", Some("a:b:c"), false, true),
        entry("n3", "3", Some("a:b"), false, false),
        entry("n4", "4", Some("a"), false, false),
        entry("n5", "5", Some("d"), false, false),
    ];
    let expanded = vec!["a".to_string(), "a:b".to_string()];
    let rows = tree_rows(&nodes, &notes, &expanded);
    let counts: Vec<(String, usize)> = rows
        .iter()
        .filter_map(|r| folder_row(r).map(|(id, _, _, c)| (id, c)))
        .collect();
    assert_eq!(
        counts,
        vec![
            ("a".to_string(), 3),
            ("a:b".to_string(), 2),
            ("a:b:c".to_string(), 1),
            ("d".to_string(), 1)
        ]
    );
}

#[test]
fn trees_fit_unless_depth_is_at_the_limit() {
    let (nodes, notes) = seed();
    assert!(tree_fits(&nodes, &notes));
    assert!(tree_fits(&vec![], &vec![]));
    let deep = vec![folder("x", "X", None, usize::MAX)];
    assert!(!tree_fits(&deep, &notes));
    // A folder that is its own parent doubles its count on every pass.
    let looped: Vec<FolderTreeNode> = (0..70).map(|_| folder("a", "A", Some("a"), 0)).collect();
    let one = vec![entry("n", "N", Some("a"), false, false)];
    assert!(!tree_fits(&looped, &one));
    let short: Vec<FolderTreeNode> = (0..10).map(|_| folder("a", "A", Some("a"), 0)).collect();
    assert!(tree_fits(&short, &one));
}

#[test]
fn store_delegates_become_commands() {
    let v: SidebarView<Pos> = SidebarView::new();
    assert!(matches!(v.open_starred(), SidebarCommand::OpenStarred));
    assert!(matches!(v.toggle_starred(), SidebarCommand::OpenStarred));
    assert!(matches!(v.open_trash(), SidebarCommand::OpenTrash));
    assert!(matches!(v.navigate_back(), SidebarCommand::NavigateBack));
    assert!(matches!(v.navigate_forward(), SidebarCommand::NavigateForward));
    match v.select_note("n1") {
        SidebarCommand::SelectNote { note_id } => assert_eq!(note_id, "n1"),
        _ => panic!("expected a selection"),
    }
    assert!(matches!(v.select_section("trash"), Some(SidebarCommand::OpenTrash)));
    assert!(v.select_section("notes").is_none());
}

#[test]
fn collapsed_folder_hides_only_its_subtree() {
    let nodes = vec![
        folder("a", "A", None, 0),
        folder("a:b", "B", Some("a"), 1),
        folder("a:b:c", "C", Some("a:b"), 2),
        folder("a:d", "D", Some("a"), 1),
        folder("e", "E", None, 0),
    ];
    let ids = |expanded: Vec<&str>| -> Vec<String> {
        let expanded: Vec<String> = expanded.into_iter().map(|s| s.to_string()).collect();
        tree_rows(&nodes, &vec![], &expanded)
            .iter()
            .filter_map(|r| folder_row(r).map(|(id, _, _, _)| id))
            .collect()
    };
    assert_eq!(ids(vec!["a", "a:b"]), vec!["a", "a:b", "a:b:c", "a:d", "e"]);
    assert_eq!(ids(vec!["a"]), vec!["a", "a:b", "a:d", "e"]);
    assert_eq!(ids(vec!["a:b"]), vec!["a", "e"]);
}

#[test]
fn icon_picker_highlights_the_folders_icon() {
    let mut nodes = vec![folder("a", "A", None, 0), folder("b", "B", None, 0)];
    nodes[1].icon = "Rocket".to_string();
    let chosen = |id: &str| -> Vec<usize> {
        (0..FOLDER_ICON_COUNT).filter(|&i| icon_option_selected(&nodes, id, i)).collect()
    };
    assert_eq!(chosen("a"), vec![0]);
    assert_eq!(chosen("b"), vec![4]);
    assert_eq!(chosen("missing"), vec![0]);
    nodes[0].icon = " rocket".to_string();
    assert!((0..FOLDER_ICON_COUNT).all(|i| !icon_option_selected(&nodes, "a", i)));
}

#[test]
fn icon_lookup_ignores_case_and_surrounding_space() {
    for s in ["  RoCkEt ", "rocket", "Code", "\tstar\n", "nope", ""] {
        let normal = s.trim().to_ascii_lowercase();
        assert_eq!(folder_icon_from_name(s), folder_icon_from_name(&normal), "input {s:?}");
    }
}
