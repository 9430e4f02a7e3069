//! The sidebar's own state: collapse, expanded folders, the context menu,
//! inline rename and the folder icon picker.  Work on notes and folders is
//! the store's; the sidebar hands it over as a [`SidebarCommand`].
//!
//! Screen positions are the caller's business (they are clamped to the
//! window there); the sidebar only carries them, as values of type `P`.
use vstd::prelude::*;
use crate::icons::{folder_icon_name, folder_icon_option, icon_name_spec, option_name, IconName, FOLDER_ICON_COUNT};
use crate::text::{eq_ascii_nocase, eq_ignore_ascii_case, str_eq, trim, trimmed};
use crate::tree::{
    counts_fit, depths_fit, expanded_contains, expanded_has, tree_rows, tree_rows_spec,
    FolderTreeNode, NoteEntry, TreeRow,
};

verus! {

/// Which kind of item an inline rename edits.
#[derive(Clone, Copy, Debug, PartialEq, Eq, Structural)]
pub enum RenameKind {
    Folder,
    Note,
}

/// An inline rename in progress: the item and the text typed so far.
pub struct RenameState {
    pub kind: RenameKind,
    pub id: String,
    pub value: String,
}

/// What a context menu was opened on.
pub enum SidebarContextTarget {
    Folder { id: String, name: String },
    Note { id: String, title: String, is_pinned: bool },
}

/// An open context menu.
pub struct SidebarContextMenu<P> {
    pub position: P,
    pub target: SidebarContextTarget,
}

/// The folder icon picker, open for one folder.
pub struct FolderIconPickerState<P> {
    pub folder_id: String,
    pub position: P,
}

/// Work that the sidebar asks the note store to do.
pub enum SidebarCommand {
    CreateNewNote,
    CreateNoteInFolder { target_folder: Option<String> },
    ToggleNotePin { note_id: String },
    DuplicateNote { note_id: String },
    DeleteNote { note_id: String },
    CreateTopLevelFolder,
    CreateFolder { name: String, parent_id: Option<String> },
    DeleteFolder { folder_id: String },
    SetFolderIcon { folder_id: String, icon: String },
    RenameFolder { folder_id: String, name: String },
    RenameNote { note_id: String, title: String },
    OpenStarred,
    OpenTrash,
    SelectNote { note_id: String },
    NavigateBack,
    NavigateForward,
}

/// The command that committing a rename hands to the store: the new folder
/// name or note title, or nothing when no rename is in progress.
pub open spec fn commit_command(r: Option<RenameState>) -> Option<SidebarCommand> {
    match r {
        Some(r) => match r.kind {
            RenameKind::Folder => Some(
                SidebarCommand::RenameFolder { folder_id: r.id, name: r.value },
            ),
            RenameKind::Note => Some(SidebarCommand::RenameNote { note_id: r.id, title: r.value }),
        },
        None => None,
    }
}

/// What a key pressed in the inline rename field did.
pub enum RenameKeyOutcome {
    /// Enter ended the rename; the store gets the command, if there was a
    /// rename in progress.
    Committed(Option<SidebarCommand>),
    /// Escape dropped the rename.
    Cancelled,
    /// The key is the text field's to handle.
    Edit,
}

/// The sidebar.
pub struct SidebarView<P> {
    pub is_collapsed: bool,
    pub search_query: String,
    pub expanded_folders: Vec<String>,
    pub context_menu: Option<SidebarContextMenu<P>>,
    pub renaming: Option<RenameState>,
    pub picking_icon_for: Option<FolderIconPickerState<P>>,
    pub tree_rows: Vec<TreeRow>,
    pub tree_rows_dirty: bool,
}

/// No folder id is listed twice.
pub open spec fn distinct_ids(v: Seq<String>) -> bool {
    forall|i: int, j: int| 0 <= i < j < v.len() ==> #[trigger] v[i]@ != #[trigger] v[j]@
}

/// The set of folder ids that a list holds.
pub open spec fn id_set(v: Seq<String>) -> Set<Seq<char>> {
    Set::new(|x: Seq<char>| expanded_has(v, x))
}

/// The sidebar's search query with surrounding whitespace removed.
pub open spec fn trimmed_query<P>(s: SidebarView<P>) -> Seq<char> {
    trimmed(s.search_query@)
}

/// Where `id` stands in the list, if it is there.
fn position_of(v: &Vec<String>, id: &String) -> (r: Option<usize>)
    ensures
        r matches Some(i) ==> i < v.len() && v@[i as int]@ == id@,
        r is None ==> !expanded_has(v@, id@),
{
    let mut i: usize = 0;
    while i < v.len()
        invariant
            i <= v.len(),
            forall|j: int| 0 <= j < i ==> v@[j]@ != id@,
        decreases v.len() - i,
    {
        if v[i] == *id {
            return Some(i);
        }
        i += 1;
    }
    None
}

/// A live note with this id.
pub open spec fn is_live_note(n: NoteEntry, id: Seq<char>) -> bool {
    !n.trashed && n.id@ == id
}

/// Position of the first live note with this id.
pub open spec fn first_live_note(notes: Seq<NoteEntry>, id: Seq<char>) -> Option<int> {
    if exists|i: int| 0 <= i < notes.len() && is_live_note(notes[i], id) {
        Some(
            choose|i: int|
                0 <= i < notes.len() && is_live_note(notes[i], id) && forall|j: int|
                    0 <= j < i ==> !is_live_note(notes[j], id),
        )
    } else {
        None
    }
}

/// Position of the first folder with this id.
pub open spec fn first_folder(nodes: Seq<FolderTreeNode>, id: Seq<char>) -> Option<int> {
    if exists|i: int| 0 <= i < nodes.len() && nodes[i].id@ == id {
        Some(
            choose|i: int|
                0 <= i < nodes.len() && nodes[i].id@ == id && forall|j: int|
                    0 <= j < i ==> nodes[j].id@ != id,
        )
    } else {
        None
    }
}

fn find_live_note(notes: &Vec<NoteEntry>, note_id: &str) -> (r: Option<usize>)
    ensures
        r matches Some(i) ==> first_live_note(notes@, note_id@) == Some(i as int) && i
            < notes.len(),
        r is None ==> first_live_note(notes@, note_id@) is None,
{
    let mut i: usize = 0;
    while i < notes.len()
        invariant
            i <= notes.len(),
            forall|j: int| 0 <= j < i ==> !is_live_note(notes@[j], note_id@),
        decreases notes.len() - i,
    {
        if !notes[i].trashed && str_eq(notes[i].id.as_str(), note_id) {
            proof {
                assert(is_live_note(notes@[i as int], note_id@));
                let k = choose|k: int|
                    0 <= k < notes.len() && is_live_note(notes@[k], note_id@) && forall|j: int|
                        0 <= j < k ==> !is_live_note(notes@[j], note_id@);
                assert(k == i);
            }
            return Some(i);
        }
        i += 1;
    }
    None
}

fn find_folder(nodes: &Vec<FolderTreeNode>, folder_id: &str) -> (r: Option<usize>)
    ensures
        r matches Some(i) ==> first_folder(nodes@, folder_id@) == Some(i as int) && i
            < nodes.len(),
        r is None ==> first_folder(nodes@, folder_id@) is None,
{
    let mut i: usize = 0;
    while i < nodes.len()
        invariant
            i <= nodes.len(),
            forall|j: int| 0 <= j < i ==> nodes@[j].id@ != folder_id@,
        decreases nodes.len() - i,
    {
        if str_eq(nodes[i].id.as_str(), folder_id) {
            proof {
                let k = choose|k: int|
                    0 <= k < nodes.len() && nodes@[k].id@ == folder_id@ && forall|j: int|
                        0 <= j < k ==> nodes@[j].id@ != folder_id@;
                assert(k == i);
            }
            return Some(i);
        }
        i += 1;
    }
    None
}

/// The stored icon name of the first folder with this id, or "folder" when
/// there is no such folder.
pub open spec fn current_folder_icon(nodes: Seq<FolderTreeNode>, id: Seq<char>) -> Seq<char> {
    match first_folder(nodes, id) {
        Some(k) => nodes[k].icon@,
        None => "folder"@,
    }
}

/// Whether the icon picker open for folder `folder_id` highlights table
/// entry `i`: the folder's stored icon name (or "folder" for an unknown
/// folder) equals the entry's name up to ASCII case.
pub fn icon_option_selected(nodes: &Vec<FolderTreeNode>, folder_id: &str, i: usize) -> (r: bool)
    requires
        i < FOLDER_ICON_COUNT,
    ensures
        r == eq_ascii_nocase(current_folder_icon(nodes@, folder_id@), option_name(i as int)),
{
    let (name, _) = folder_icon_option(i);
    match find_folder(nodes, folder_id) {
        Some(k) => eq_ignore_ascii_case(nodes[k].icon.as_str(), name),
        None => eq_ignore_ascii_case("folder", name),
    }
}

/// A set with `id` taken out when it holds it, put in when it does not.
pub open spec fn toggled(s: Set<Seq<char>>, id: Seq<char>) -> Set<Seq<char>> {
    if s.contains(id) {
        s.remove(id)
    } else {
        s.insert(id)
    }
}

/// Toggling a folder flips whether it is expanded and leaves every other
/// folder as it was.
pub proof fn lemma_toggle_flips_only_that_folder(s: Set<Seq<char>>, id: Seq<char>, other: Seq<char>)
    ensures
        toggled(s, id).contains(id) == !s.contains(id),
        other != id ==> toggled(s, id).contains(other) == s.contains(other),
{
}

/// Toggling the same folder twice restores the expanded folders.
pub proof fn lemma_toggle_twice_restores(s: Set<Seq<char>>, id: Seq<char>)
    ensures
        toggled(toggled(s, id), id) == s,
{
    assert(toggled(toggled(s, id), id) =~= s);
}

/// The folder that the icon picker is open for, if it is open.
pub open spec fn picker_folder<P>(picker: Option<FolderIconPickerState<P>>) -> Option<Seq<char>> {
    match picker {
        Some(p) => Some(p.folder_id@),
        None => None,
    }
}

/// The folder the picker is open for after a toggle for folder `id`: none
/// when it was open for `id`, else `id`.
pub open spec fn picker_toggle(open_for: Option<Seq<char>>, id: Seq<char>) -> Option<Seq<char>> {
    if open_for == Some(id) {
        None
    } else {
        Some(id)
    }
}

/// Toggling the icon picker for a folder opens it for that folder exactly
/// when it was not open for it; toggling twice for the same folder leaves it
/// closed unless it was open for that folder to begin with.
pub proof fn lemma_picker_toggle(open_for: Option<Seq<char>>, id: Seq<char>)
    ensures
        (picker_toggle(open_for, id) == Some(id)) == (open_for != Some(id)),
        picker_toggle(picker_toggle(open_for, id), id) == if open_for == Some(id) {
            Some(id)
        } else {
            None
        },
{
}

impl<P> SidebarView<P> {
    /// The expanded folder list holds each id once.
    pub open spec fn wf(&self) -> bool {
        distinct_ids(self.expanded_folders@)
    }

    /// The expanded folders, as a set of ids.
    pub open spec fn expanded(&self) -> Set<Seq<char>> {
        id_set(self.expanded_folders@)
    }

    /// The context menu, the rename in progress and the icon picker are as
    /// in `other`.
    pub open spec fn same_menus(&self, other: &Self) -> bool {
        &&& self.context_menu == other.context_menu
        &&& self.renaming == other.renaming
        &&& self.picking_icon_for == other.picking_icon_for
    }

    /// A sidebar that is expanded, with no folder open, nothing being renamed
    /// and no menu or picker shown; its rows are yet to be built.
    pub fn new() -> (s: Self)
        ensures
            s.wf(),
            !s.is_collapsed,
            s.search_query@.len() == 0,
            s.expanded_folders@.len() == 0,
            s.context_menu is None,
            s.renaming is None,
            s.picking_icon_for is None,
            s.tree_rows@.len() == 0,
            s.tree_rows_dirty,
    {
        SidebarView {
            is_collapsed: false,
            search_query: String::new(),
            expanded_folders: Vec::new(),
            context_menu: None,
            renaming: None,
            picking_icon_for: None,
            tree_rows: Vec::new(),
            tree_rows_dirty: true,
        }
    }

    /// The search query as typed.
    pub fn search_query(&self) -> (r: &String)
        ensures
            r == &self.search_query,
    {
        &self.search_query
    }

    /// Replaces the search query.
    pub fn set_search_query(&mut self, query: String)
        ensures
            final(self).search_query == query,
            final(self).is_collapsed == old(self).is_collapsed,
            final(self).expanded_folders == old(self).expanded_folders,
            final(self).same_menus(old(self)),
            final(self).tree_rows == old(self).tree_rows,
            final(self).tree_rows_dirty == old(self).tree_rows_dirty,
    {
        self.search_query = query;
    }

    /// Whether the sidebar shows search results rather than the folder tree:
    /// the query is not blank.
    pub fn is_searching(&self) -> (r: bool)
        ensures
            r == (trimmed(self.search_query@).len() > 0),
    {
        let q = trim(self.search_query.as_str());
        !q.as_str().is_empty()
    }

    /// Focusing the search field expands a collapsed sidebar.
    pub fn focus_search(&mut self)
        ensures
            !final(self).is_collapsed,
            final(self).search_query == old(self).search_query,
            final(self).expanded_folders == old(self).expanded_folders,
            final(self).same_menus(old(self)),
            final(self).tree_rows == old(self).tree_rows,
            final(self).tree_rows_dirty == old(self).tree_rows_dirty,
    {
        if self.is_collapsed {
            self.is_collapsed = false;
        }
    }

    /// Switches between the full sidebar and the icon rail; an open context
    /// menu closes.
    pub fn toggle_collapsed(&mut self)
        ensures
            final(self).is_collapsed == !old(self).is_collapsed,
            final(self).context_menu is None,
            final(self).renaming == old(self).renaming,
            final(self).picking_icon_for == old(self).picking_icon_for,
            final(self).search_query == old(self).search_query,
            final(self).expanded_folders == old(self).expanded_folders,
            final(self).tree_rows == old(self).tree_rows,
            final(self).tree_rows_dirty == old(self).tree_rows_dirty,
    {
        self.is_collapsed = !self.is_collapsed;
        self.context_menu = None;
    }

    /// Whether a folder is expanded.
    pub fn is_folder_expanded(&self, folder_id: &str) -> (r: bool)
        ensures
            r == self.expanded().contains(folder_id@),
    {
        let id = folder_id.to_owned();
        expanded_contains(&self.expanded_folders, &id)
    }

    /// Expands a collapsed folder or collapses an expanded one; the rows are
    /// rebuilt on next use.  Nothing else changes: in particular no note is
    /// selected and no folder becomes selected.
    pub fn toggle_folder(&mut self, folder_id: &str)
        requires
            old(self).wf(),
        ensures
            final(self).wf(),
            final(self).expanded() == toggled(old(self).expanded(), folder_id@),
            final(self).tree_rows_dirty,
            final(self).is_collapsed == old(self).is_collapsed,
            final(self).search_query == old(self).search_query,
            final(self).same_menus(old(self)),
            final(self).tree_rows == old(self).tree_rows,
    {
        let id = folder_id.to_owned();
        let ghost before = self.expanded_folders@;
        match position_of(&self.expanded_folders, &id) {
            Some(i) => {
                self.expanded_folders.remove(i);
                proof {
                    let after = self.expanded_folders@;
                    assert(after =~= before.remove(i as int));
                    assert forall|a: int, b: int| 0 <= a < b < after.len() implies #[trigger] after[a]@
                        != #[trigger] after[b]@ by {
                        let a2 = if a < i { a } else { a + 1 };
                        let b2 = if b < i { b } else { b + 1 };
                        assert(after[a] == before[a2]);
                        assert(after[b] == before[b2]);
                        assert(before[a2]@ != before[b2]@);
                    };
                    assert forall|x: Seq<char>| expanded_has(after, x) == (expanded_has(before, x)
                        && x != id@) by {
                        if expanded_has(after, x) {
                            let k = choose|k: int| 0 <= k < after.len() && #[trigger] after[k]@ == x;
                            if k < i {
                                assert(before[k]@ == x);
                                assert(before[k]@ != before[i as int]@);
                            } else {
                                assert(before[k + 1]@ == x);
                                assert(before[i as int]@ != before[k + 1]@);
                            }
                        }
                        if expanded_has(before, x) && x != id@ {
                            let k = choose|k: int| 0 <= k < before.len() && #[trigger] before[k]@ == x;
                            if k < i {
                                assert(after[k]@ == x);
                            } else {
                                assert(k != i);
                                assert(after[k - 1]@ == x);
                            }
                        }
                    };
                    assert(expanded_has(before, id@));
                    assert(id_set(after) =~= id_set(before).remove(id@));
                }
            },
            None => {
                self.expanded_folders.push(id);
                proof {
                    let after = self.expanded_folders@;
                    assert(!expanded_has(before, folder_id@));
                    assert forall|a: int, b: int| 0 <= a < b < after.len() implies #[trigger] after[a]@
                        != #[trigger] after[b]@ by {
                        if b == before.len() {
                            assert(before[a]@ != folder_id@);
                        } else {
                            assert(before[a]@ != before[b]@);
                        }
                    };
                    assert forall|x: Seq<char>| expanded_has(after, x) == (expanded_has(before, x)
                        || x == folder_id@) by {
                        if expanded_has(after, x) {
                            let k = choose|k: int| 0 <= k < after.len() && #[trigger] after[k]@ == x;
                            if k < before.len() {
                                assert(before[k]@ == x);
                            }
                        }
                        if expanded_has(before, x) {
                            let k = choose|k: int| 0 <= k < before.len() && #[trigger] before[k]@ == x;
                            assert(after[k]@ == x);
                        }
                        if x == folder_id@ {
                            assert(after[before.len() as int]@ == x);
                        }
                    };
                    assert(id_set(after) =~= id_set(before).insert(folder_id@));
                }
            },
        }
        self.tree_rows_dirty = true;
    }

    /// Opens the icon picker for a folder at `position`, or closes it when it
    /// is already open for that folder.  Opening ends an inline rename; an
    /// open context menu closes either way.
    pub fn toggle_icon_picker_at(&mut self, folder_id: &str, position: P)
        ensures
            final(self).context_menu is None,
            picker_folder(final(self).picking_icon_for) == picker_toggle(
                picker_folder(old(self).picking_icon_for),
                folder_id@,
            ),
            final(self).picking_icon_for matches Some(p) ==> p.position == position,
            (final(self).picking_icon_for is Some) ==> final(self).renaming is None,
            (final(self).picking_icon_for is None) ==> final(self).renaming == old(self).renaming,
            final(self).is_collapsed == old(self).is_collapsed,
            final(self).search_query == old(self).search_query,
            final(self).expanded_folders == old(self).expanded_folders,
            final(self).tree_rows == old(self).tree_rows,
            final(self).tree_rows_dirty == old(self).tree_rows_dirty,
    {
        let id = folder_id.to_owned();
        let same = match &self.picking_icon_for {
            Some(p) => p.folder_id == id,
            None => false,
        };
        if same {
            self.picking_icon_for = None;
        } else {
            self.picking_icon_for = Some(FolderIconPickerState { folder_id: id, position });
            self.renaming = None;
        }
        self.context_menu = None;
    }

    /// [`Self::toggle_icon_picker_at`] at the picker's default position.
    pub fn toggle_icon_picker(&mut self, folder_id: &str, default_position: P)
        ensures
            final(self).context_menu is None,
            picker_folder(final(self).picking_icon_for) == picker_toggle(
                picker_folder(old(self).picking_icon_for),
                folder_id@,
            ),
            final(self).picking_icon_for matches Some(p) ==> p.position == default_position,
            (final(self).picking_icon_for is Some) ==> final(self).renaming is None,
            (final(self).picking_icon_for is None) ==> final(self).renaming == old(self).renaming,
            final(self).is_collapsed == old(self).is_collapsed,
            final(self).search_query == old(self).search_query,
            final(self).expanded_folders == old(self).expanded_folders,
            final(self).tree_rows == old(self).tree_rows,
            final(self).tree_rows_dirty == old(self).tree_rows_dirty,
    {
        self.toggle_icon_picker_at(folder_id, default_position);
    }

    /// Closes the icon picker without choosing.
    pub fn close_icon_picker(&mut self)
        ensures
            final(self).picking_icon_for is None,
            final(self).context_menu == old(self).context_menu,
            final(self).renaming == old(self).renaming,
            final(self).is_collapsed == old(self).is_collapsed,
            final(self).search_query == old(self).search_query,
            final(self).expanded_folders == old(self).expanded_folders,
            final(self).tree_rows == old(self).tree_rows,
            final(self).tree_rows_dirty == old(self).tree_rows_dirty,
    {
        self.picking_icon_for = None;
    }

    /// Chooses an icon for a folder: the picker closes and the store is asked
    /// to record the icon's stored name.
    pub fn pick_folder_icon(&mut self, folder_id: &str, icon: IconName) -> (cmd: SidebarCommand)
        ensures
            cmd matches SidebarCommand::SetFolderIcon { folder_id: f, icon: name } && f@
                == folder_id@ && name@ == icon_name_spec(icon),
            final(self).picking_icon_for is None,
            final(self).context_menu == old(self).context_menu,
            final(self).renaming == old(self).renaming,
            final(self).is_collapsed == old(self).is_collapsed,
            final(self).search_query == old(self).search_query,
            final(self).expanded_folders == old(self).expanded_folders,
            final(self).tree_rows == old(self).tree_rows,
            final(self).tree_rows_dirty == old(self).tree_rows_dirty,
    {
        let name = folder_icon_name(icon);
        self.picking_icon_for = None;
        SidebarCommand::SetFolderIcon { folder_id: folder_id.to_owned(), icon: name.to_owned() }
    }

    /// Opens a context menu on a folder or note; an inline rename or icon
    /// picking in progress ends.
    pub fn open_context_menu(&mut self, position: P, target: SidebarContextTarget)
        ensures
            final(self).context_menu == Some(SidebarContextMenu { position, target }),
            final(self).renaming is None,
            final(self).picking_icon_for is None,
            final(self).is_collapsed == old(self).is_collapsed,
            final(self).search_query == old(self).search_query,
            final(self).expanded_folders == old(self).expanded_folders,
            final(self).tree_rows == old(self).tree_rows,
            final(self).tree_rows_dirty == old(self).tree_rows_dirty,
    {
        self.renaming = None;
        self.picking_icon_for = None;
        self.context_menu = Some(SidebarContextMenu { position, target });
    }

    /// Closes the context menu.
    pub fn close_context_menu(&mut self)
        ensures
            final(self).context_menu is None,
            final(self).renaming == old(self).renaming,
            final(self).picking_icon_for == old(self).picking_icon_for,
            final(self).is_collapsed == old(self).is_collapsed,
            final(self).search_query == old(self).search_query,
            final(self).expanded_folders == old(self).expanded_folders,
            final(self).tree_rows == old(self).tree_rows,
            final(self).tree_rows_dirty == old(self).tree_rows_dirty,
    {
        self.context_menu = None;
    }

    /// Layout fields other than the menus are as in `other`.
    pub open spec fn same_layout(&self, other: &Self) -> bool {
        &&& self.is_collapsed == other.is_collapsed
        &&& self.search_query == other.search_query
        &&& self.expanded_folders == other.expanded_folders
        &&& self.tree_rows == other.tree_rows
        &&& self.tree_rows_dirty == other.tree_rows_dirty
    }

    /// Starts renaming a note in place, seeded with its title, when a live
    /// note with that id exists; the context menu and icon picker close.
    /// Otherwise nothing changes.
    pub fn begin_rename_note(&mut self, note_id: &str, notes: &Vec<NoteEntry>)
        ensures
            final(self).same_layout(old(self)),
            match first_live_note(notes@, note_id@) {
                Some(i) => {
                    &&& final(self).renaming matches Some(r) && r.kind == RenameKind::Note && r.id@
                        == note_id@ && r.value == notes@[i].title
                    &&& final(self).context_menu is None
                    &&& final(self).picking_icon_for is None
                },
                None => final(self).same_menus(old(self)),
            },
    {
        match find_live_note(notes, note_id) {
            Some(i) => {
                self.renaming = Some(
                    RenameState {
                        kind: RenameKind::Note,
                        id: note_id.to_owned(),
                        value: notes[i].title.clone(),
                    },
                );
                self.context_menu = None;
                self.picking_icon_for = None;
            },
            None => {},
        }
    }

    /// Starts renaming a folder in place, seeded with its name, when the tree
    /// holds a folder with that id; the context menu and icon picker close.
    /// Otherwise nothing changes.
    pub fn begin_rename_folder(&mut self, folder_id: &str, nodes: &Vec<FolderTreeNode>)
        ensures
            final(self).same_layout(old(self)),
            match first_folder(nodes@, folder_id@) {
                Some(i) => {
                    &&& final(self).renaming matches Some(r) && r.kind == RenameKind::Folder
                        && r.id@ == folder_id@ && r.value == nodes@[i].name
                    &&& final(self).context_menu is None
                    &&& final(self).picking_icon_for is None
                },
                None => final(self).same_menus(old(self)),
            },
    {
        match find_folder(nodes, folder_id) {
            Some(i) => {
                self.renaming = Some(
                    RenameState {
                        kind: RenameKind::Folder,
                        id: folder_id.to_owned(),
                        value: nodes[i].name.clone(),
                    },
                );
                self.context_menu = None;
                self.picking_icon_for = None;
            },
            None => {},
        }
    }

    /// Replaces the text of the rename in progress, if any.
    pub fn set_rename_value(&mut self, value: String)
        ensures
            final(self).same_layout(old(self)),
            final(self).context_menu == old(self).context_menu,
            final(self).picking_icon_for == old(self).picking_icon_for,
            match old(self).renaming {
                Some(r) => final(self).renaming == Some(
                    RenameState { kind: r.kind, id: r.id, value },
                ),
                None => final(self).renaming is None,
            },
    {
        match self.renaming.take() {
            Some(r) => {
                self.renaming = Some(RenameState { kind: r.kind, id: r.id, value });
            },
            None => {},
        }
    }

    /// Ends the rename in progress and hands its text to the store as the new
    /// folder name or note title.  Without a rename nothing happens.
    pub fn commit_rename(&mut self) -> (cmd: Option<SidebarCommand>)
        ensures
            final(self).renaming is None,
            final(self).same_layout(old(self)),
            final(self).context_menu == old(self).context_menu,
            final(self).picking_icon_for == old(self).picking_icon_for,
            cmd == commit_command(old(self).renaming),
    {
        match self.renaming.take() {
            Some(state) => match state.kind {
                RenameKind::Folder => Some(
                    SidebarCommand::RenameFolder { folder_id: state.id, name: state.value },
                ),
                RenameKind::Note => Some(
                    SidebarCommand::RenameNote { note_id: state.id, title: state.value },
                ),
            },
            None => None,
        }
    }

    /// Drops the rename in progress; tells whether there was one.
    pub fn cancel_rename(&mut self) -> (was_renaming: bool)
        ensures
            was_renaming == (old(self).renaming is Some),
            final(self).renaming is None,
            final(self).same_layout(old(self)),
            final(self).context_menu == old(self).context_menu,
            final(self).picking_icon_for == old(self).picking_icon_for,
    {
        self.renaming.take().is_some()
    }

    /// A key pressed in the inline rename field: Enter commits the rename,
    /// Escape drops it, and any other key is left to the text field.
    pub fn handle_rename_key(&mut self, key: &str) -> (outcome: RenameKeyOutcome)
        ensures
            key@ == "enter"@ ==> outcome == RenameKeyOutcome::Committed(
                commit_command(old(self).renaming),
            ) && final(self).renaming is None,
            key@ == "escape"@ ==> outcome is Cancelled && final(self).renaming is None,
            key@ != "enter"@ && key@ != "escape"@ ==> outcome is Edit && final(self).renaming
                == old(self).renaming,
            final(self).same_layout(old(self)),
            final(self).context_menu == old(self).context_menu,
            final(self).picking_icon_for == old(self).picking_icon_for,
    {
        proof {
            reveal_strlit("enter");
            reveal_strlit("escape");
            assert("enter"@.len() != "escape"@.len());
        }
        if str_eq(key, "enter") {
            RenameKeyOutcome::Committed(self.commit_rename())
        } else if str_eq(key, "escape") {
            self.cancel_rename();
            RenameKeyOutcome::Cancelled
        } else {
            RenameKeyOutcome::Edit
        }
    }

    /// Opens the starred page.
    pub fn open_starred(&self) -> (cmd: SidebarCommand)
        ensures
            cmd == SidebarCommand::OpenStarred,
    {
        SidebarCommand::OpenStarred
    }

    /// The starred button: opens the starred page.
    pub fn toggle_starred(&self) -> (cmd: SidebarCommand)
        ensures
            cmd == SidebarCommand::OpenStarred,
    {
        self.open_starred()
    }

    /// Opens the trash.
    pub fn open_trash(&self) -> (cmd: SidebarCommand)
        ensures
            cmd == SidebarCommand::OpenTrash,
    {
        SidebarCommand::OpenTrash
    }

    /// Selects a note.
    pub fn select_note(&self, note_id: &str) -> (cmd: SidebarCommand)
        ensures
            cmd matches SidebarCommand::SelectNote { note_id: n } && n@ == note_id@,
    {
        SidebarCommand::SelectNote { note_id: note_id.to_owned() }
    }

    /// Goes back in the note history (the store tells whether it moved).
    pub fn navigate_back(&self) -> (cmd: SidebarCommand)
        ensures
            cmd == SidebarCommand::NavigateBack,
    {
        SidebarCommand::NavigateBack
    }

    /// Goes forward in the note history (the store tells whether it moved).
    pub fn navigate_forward(&self) -> (cmd: SidebarCommand)
        ensures
            cmd == SidebarCommand::NavigateForward,
    {
        SidebarCommand::NavigateForward
    }

    /// New note at the top level; the context menu closes.
    pub fn create_new_note(&mut self) -> (cmd: SidebarCommand)
        ensures
            cmd == SidebarCommand::CreateNewNote,
            final(self).context_menu is None,
            final(self).same_layout(old(self)),
            final(self).renaming == old(self).renaming,
            final(self).picking_icon_for == old(self).picking_icon_for,
    {
        self.context_menu = None;
        SidebarCommand::CreateNewNote
    }

    /// New note in a folder (or at the top level); the context menu closes.
    pub fn create_note_in_folder(&mut self, folder_id: Option<String>) -> (cmd: SidebarCommand)
        ensures
            cmd == (SidebarCommand::CreateNoteInFolder { target_folder: folder_id }),
            final(self).context_menu is None,
            final(self).same_layout(old(self)),
            final(self).renaming == old(self).renaming,
            final(self).picking_icon_for == old(self).picking_icon_for,
    {
        self.context_menu = None;
        SidebarCommand::CreateNoteInFolder { target_folder: folder_id }
    }

    /// Pins or unpins a note; the context menu closes.
    pub fn toggle_note_pin(&mut self, note_id: &str) -> (cmd: SidebarCommand)
        ensures
            cmd matches SidebarCommand::ToggleNotePin { note_id: n } && n@ == note_id@,
            final(self).context_menu is None,
            final(self).same_layout(old(self)),
            final(self).renaming == old(self).renaming,
            final(self).picking_icon_for == old(self).picking_icon_for,
    {
        self.context_menu = None;
        SidebarCommand::ToggleNotePin { note_id: note_id.to_owned() }
    }

    /// Duplicates a note; the context menu closes.
    pub fn duplicate_note(&mut self, note_id: &str) -> (cmd: SidebarCommand)
        ensures
            cmd matches SidebarCommand::DuplicateNote { note_id: n } && n@ == note_id@,
            final(self).context_menu is None,
            final(self).same_layout(old(self)),
            final(self).renaming == old(self).renaming,
            final(self).picking_icon_for == old(self).picking_icon_for,
    {
        self.context_menu = None;
        SidebarCommand::DuplicateNote { note_id: note_id.to_owned() }
    }

    /// Moves a note to the trash; the context menu closes.
    pub fn delete_note(&mut self, note_id: &str) -> (cmd: SidebarCommand)
        ensures
            cmd matches SidebarCommand::DeleteNote { note_id: n } && n@ == note_id@,
            final(self).context_menu is None,
            final(self).same_layout(old(self)),
            final(self).renaming == old(self).renaming,
            final(self).picking_icon_for == old(self).picking_icon_for,
    {
        self.context_menu = None;
        SidebarCommand::DeleteNote { note_id: note_id.to_owned() }
    }

    /// New top-level folder; the context menu closes.
    pub fn create_top_level_folder(&mut self) -> (cmd: SidebarCommand)
        ensures
            cmd == SidebarCommand::CreateTopLevelFolder,
            final(self).context_menu is None,
            final(self).same_layout(old(self)),
            final(self).renaming == old(self).renaming,
            final(self).picking_icon_for == old(self).picking_icon_for,
    {
        self.context_menu = None;
        SidebarCommand::CreateTopLevelFolder
    }

    /// New "Untitled Folder" inside a folder; the context menu closes.
    pub fn create_subfolder(&mut self, folder_id: &str) -> (cmd: SidebarCommand)
        ensures
            cmd matches SidebarCommand::CreateFolder { name, parent_id: Some(p) } && name@
                == "Untitled Folder"@ && p@ == folder_id@,
            final(self).context_menu is None,
            final(self).same_layout(old(self)),
            final(self).renaming == old(self).renaming,
            final(self).picking_icon_for == old(self).picking_icon_for,
    {
        self.context_menu = None;
        SidebarCommand::CreateFolder {
            name: "Untitled Folder".to_owned(),
            parent_id: Some(folder_id.to_owned()),
        }
    }

    /// Deletes a folder: the folder and everything below it (`subtree`, as
    /// the store lists it) stop being expanded, and the context menu closes.
    pub fn delete_folder(&mut self, folder_id: &str, subtree: &Vec<String>) -> (cmd: SidebarCommand)
        requires
            old(self).wf(),
        ensures
            final(self).wf(),
            cmd matches SidebarCommand::DeleteFolder { folder_id: f } && f@ == folder_id@,
            final(self).expanded() == old(self).expanded().difference(id_set(subtree@)),
            final(self).context_menu is None,
            final(self).renaming == old(self).renaming,
            final(self).picking_icon_for == old(self).picking_icon_for,
            final(self).is_collapsed == old(self).is_collapsed,
            final(self).search_query == old(self).search_query,
            final(self).tree_rows == old(self).tree_rows,
            final(self).tree_rows_dirty == old(self).tree_rows_dirty,
    {
        let ghost before = self.expanded_folders@;
        let mut kept: Vec<String> = Vec::new();
        let mut i: usize = 0;
        while i < self.expanded_folders.len()
            invariant
                self.expanded_folders@ == before,
                distinct_ids(before),
                i <= before.len(),
                distinct_ids(kept@),
                forall|a: int|
                    0 <= a < kept.len() ==> exists|b: int|
                        0 <= b < i && #[trigger] kept@[a] == before[b],
                forall|x: Seq<char>|
                    expanded_has(kept@, x) == (expanded_has(before.take(i as int), x)
                        && !expanded_has(subtree@, x)),
            decreases before.len() - i,
        {
            let id = self.expanded_folders[i].clone();
            let drop = expanded_contains(subtree, &id);
            let ghost prev = kept@;
            if !drop {
                proof {
                    assert forall|a: int| 0 <= a < prev.len() implies #[trigger] prev[a]@ != id@ by {
                        let b = choose|b: int| 0 <= b < i && #[trigger] prev[a] == before[b];
                        assert(before[b]@ != before[i as int]@);
                    };
                }
                kept.push(id);
            }
            proof {
                let now = kept@;
                assert(before.take(i + 1) =~= before.take(i as int).push(before[i as int]));
                assert forall|a: int, b: int| 0 <= a < b < now.len() implies #[trigger] now[a]@
                    != #[trigger] now[b]@ by {
                    if b == prev.len() && !drop {
                        assert(now[a] == prev[a]);
                    } else {
                        assert(now[a] == prev[a] && now[b] == prev[b]);
                    }
                };
                assert forall|a: int| 0 <= a < now.len() implies exists|b: int|
                    0 <= b < i + 1 && #[trigger] now[a] == before[b] by {
                    if a == prev.len() && !drop {
                        assert(now[a] == before[i as int]);
                    } else {
                        assert(now[a] == prev[a]);
                        let b = choose|b: int| 0 <= b < i && #[trigger] prev[a] == before[b];
                        assert(now[a] == before[b]);
                    }
                };
                assert forall|x: Seq<char>| expanded_has(now, x) == (expanded_has(
                    before.take(i + 1),
                    x,
                ) && !expanded_has(subtree@, x)) by {
                    let t = before.take(i as int);
                    let t1 = before.take(i + 1);
                    if expanded_has(now, x) {
                        let k = choose|k: int| 0 <= k < now.len() && #[trigger] now[k]@ == x;
                        if k < prev.len() {
                            assert(prev[k]@ == x);
                            assert(expanded_has(prev, x));
                            let m = choose|m: int| 0 <= m < t.len() && #[trigger] t[m]@ == x;
                            assert(t1[m]@ == x);
                        } else {
                            assert(t1[i as int]@ == x);
                        }
                    }
                    if expanded_has(t1, x) && !expanded_has(subtree@, x) {
                        let m = choose|m: int| 0 <= m < t1.len() && #[trigger] t1[m]@ == x;
                        if m < i {
                            assert(t[m]@ == x);
                            assert(expanded_has(prev, x));
                            let k = choose|k: int| 0 <= k < prev.len() && #[trigger] prev[k]@ == x;
                            assert(now[k]@ == x);
                        } else {
                            assert(now[prev.len() as int]@ == x);
                        }
                    }
                };
            }
            i += 1;
        }
        assert(before.take(before.len() as int) =~= before);
        self.expanded_folders = kept;
        assert(id_set(self.expanded_folders@) =~= id_set(before).difference(id_set(subtree@)));
        self.context_menu = None;
        SidebarCommand::DeleteFolder { folder_id: folder_id.to_owned() }
    }

    /// The section buttons above the tree: "starred" and "trash" open those
    /// views; any other section id asks for nothing.
    pub fn select_section(&self, section_id: &str) -> (cmd: Option<SidebarCommand>)
        ensures
            section_id@ == "starred"@ ==> cmd == Some(SidebarCommand::OpenStarred),
            section_id@ == "trash"@ ==> cmd == Some(SidebarCommand::OpenTrash),
            section_id@ != "starred"@ && section_id@ != "trash"@ ==> cmd is None,
    {
        proof {
            reveal_strlit("starred");
            reveal_strlit("trash");
            assert("starred"@.len() != "trash"@.len());
        }
        if str_eq(section_id, "starred") {
            Some(self.open_starred())
        } else if str_eq(section_id, "trash") {
            Some(self.open_trash())
        } else {
            None
        }
    }

    /// The notes or folders changed: rebuild the rows on next use.
    pub fn mark_tree_dirty(&mut self)
        ensures
            final(self).tree_rows_dirty,
            final(self).tree_rows == old(self).tree_rows,
            final(self).is_collapsed == old(self).is_collapsed,
            final(self).search_query == old(self).search_query,
            final(self).expanded_folders == old(self).expanded_folders,
            final(self).same_menus(old(self)),
    {
        self.tree_rows_dirty = true;
    }

    /// Rebuilds the tree rows from the store's folders and notes.
    pub fn update_tree_rows(&mut self, nodes: &Vec<FolderTreeNode>, notes: &Vec<NoteEntry>)
        requires
            counts_fit(nodes@, notes@),
            depths_fit(nodes@),
        ensures
            final(self).tree_rows@ == tree_rows_spec(nodes@, notes@, old(self).expanded_folders@),
            final(self).tree_rows_dirty == old(self).tree_rows_dirty,
            final(self).is_collapsed == old(self).is_collapsed,
            final(self).search_query == old(self).search_query,
            final(self).expanded_folders == old(self).expanded_folders,
            final(self).same_menus(old(self)),
    {
        self.tree_rows = tree_rows(nodes, notes, &self.expanded_folders);
    }

    /// Brings the rows up to date before they are drawn: they are rebuilt
    /// when marked dirty, or when there are none although the store holds
    /// folders or notes; then they are clean.
    pub fn refresh_tree_rows(&mut self, nodes: &Vec<FolderTreeNode>, notes: &Vec<NoteEntry>)
        requires
            counts_fit(nodes@, notes@),
            depths_fit(nodes@),
        ensures
            !final(self).tree_rows_dirty,
            (old(self).tree_rows_dirty || (old(self).tree_rows@.len() == 0 && (nodes@.len() > 0
                || notes@.len() > 0))) ==> final(self).tree_rows@ == tree_rows_spec(
                nodes@,
                notes@,
                old(self).expanded_folders@,
            ),
            !(old(self).tree_rows_dirty || (old(self).tree_rows@.len() == 0 && (nodes@.len() > 0
                || notes@.len() > 0))) ==> final(self).tree_rows == old(self).tree_rows,
            final(self).is_collapsed == old(self).is_collapsed,
            final(self).search_query == old(self).search_query,
            final(self).expanded_folders == old(self).expanded_folders,
            final(self).same_menus(old(self)),
    {
        let needs_update = self.tree_rows_dirty || (self.tree_rows.len() == 0 && (nodes.len() > 0
            || notes.len() > 0));
        if needs_update {
            self.update_tree_rows(nodes, notes);
        }
        self.tree_rows_dirty = false;
    }
}

} // verus!
