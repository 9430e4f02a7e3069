//! State of the note, starred and settings pages that is not about layout.
use vstd::prelude::*;
use crate::text::{decimal, push_str, u64_to_decimal};
use crate::tree::{starred_indices, starred_spec, NoteEntry};

verus! {

/// What the note page does to its editor when the selection may have changed.
pub enum EditorSync {
    /// The editor already shows the selected note.
    Keep,
    /// Load this note's body into the editor (or empty the editor when the
    /// store has no such note).
    Load { note_id: String },
    /// Nothing is selected: empty the editor.
    Clear,
}

/// The note page: which note the editor holds, and whether the editor has
/// had its one automatic focus.
pub struct NoteView {
    pub loaded_note_id: Option<String>,
    pub did_initial_focus: bool,
}

/// Two optional ids are the same.
pub open spec fn same_id(a: Option<String>, b: Option<String>) -> bool {
    match (a, b) {
        (Some(x), Some(y)) => x@ == y@,
        (None, None) => true,
        _ => false,
    }
}

impl NoteView {
    /// A note page whose editor holds nothing yet.
    pub fn new() -> (v: Self)
        ensures
            v.loaded_note_id is None,
            !v.did_initial_focus,
    {
        NoteView { loaded_note_id: None, did_initial_focus: false }
    }

    /// Follows the store's selection: nothing to do when the editor already
    /// holds the selected note; else the editor is loaded with it, or emptied
    /// when nothing is selected, and the page remembers what it holds.
    pub fn sync_editor(&mut self, selected: Option<String>) -> (action: EditorSync)
        ensures
            same_id(old(self).loaded_note_id, selected) ==> action is Keep
                && final(self).loaded_note_id == old(self).loaded_note_id,
            !same_id(old(self).loaded_note_id, selected) ==> final(self).loaded_note_id == selected
                && match selected {
                Some(id) => action matches EditorSync::Load { note_id } && note_id == id,
                None => action is Clear,
            },
            final(self).did_initial_focus == old(self).did_initial_focus,
    {
        let same = match (&self.loaded_note_id, &selected) {
            (Some(x), Some(y)) => *x == *y,
            (None, None) => true,
            _ => false,
        };
        if same {
            return EditorSync::Keep;
        }
        match selected {
            Some(id) => {
                self.loaded_note_id = Some(id.clone());
                EditorSync::Load { note_id: id }
            },
            None => {
                self.loaded_note_id = None;
                EditorSync::Clear
            },
        }
    }

    /// Whether to focus the editor now: only the first time a note is shown,
    /// so that later redraws never take focus from elsewhere.
    pub fn take_initial_focus(&mut self, has_note: bool) -> (focus: bool)
        ensures
            focus == (!old(self).did_initial_focus && has_note),
            final(self).did_initial_focus == (old(self).did_initial_focus || has_note),
            final(self).loaded_note_id == old(self).loaded_note_id,
    {
        if !self.did_initial_focus && has_note {
            self.did_initial_focus = true;
            true
        } else {
            false
        }
    }
}

/// The starred page: the positions of the starred notes, recomputed after
/// the store changed.
pub struct StarredView {
    pub starred_indices: Vec<usize>,
    pub dirty: bool,
}

impl StarredView {
    /// A starred page that still has to list its notes.
    pub fn new() -> (v: Self)
        ensures
            v.starred_indices@.len() == 0,
            v.dirty,
    {
        StarredView { starred_indices: Vec::new(), dirty: true }
    }

    /// The store changed.
    pub fn mark_dirty(&mut self)
        ensures
            final(self).dirty,
            final(self).starred_indices == old(self).starred_indices,
    {
        self.dirty = true;
    }

    /// Before drawing: when the store changed, list again the notes that are
    /// pinned and not in the trash.
    pub fn refresh(&mut self, notes: &Vec<NoteEntry>)
        ensures
            !final(self).dirty,
            old(self).dirty ==> final(self).starred_indices@ == starred_spec(
                notes@,
                notes@.len() as int,
            ),
            !old(self).dirty ==> final(self).starred_indices == old(self).starred_indices,
    {
        if self.dirty {
            self.starred_indices = starred_indices(notes);
            self.dirty = false;
        }
    }
}

/// "n notes • m folders".
pub open spec fn notes_and_folders_spec(notes: nat, folders: nat) -> Seq<char> {
    decimal(notes) + " notes • "@ + decimal(folders) + " folders"@
}

/// The line under the vault's name: how many notes and folders it holds.
pub fn notes_and_folders(notes: u64, folders: u64) -> (r: String)
    ensures
        r@ == notes_and_folders_spec(notes as nat, folders as nat),
{
    let mut r = u64_to_decimal(notes);
    push_str(&mut r, " notes • ");
    let f = u64_to_decimal(folders);
    push_str(&mut r, f.as_str());
    push_str(&mut r, " folders");
    r
}

/// The "Empty Trash" row's value: the number of notes in the trash, or that
/// the trash is empty.
pub fn trash_summary(trashed: u64) -> (r: String)
    ensures
        trashed > 0 ==> r@ == decimal(trashed as nat) + " notes"@,
        trashed == 0 ==> r@ == "Trash is empty"@,
{
    if trashed > 0 {
        let mut r = u64_to_decimal(trashed);
        push_str(&mut r, " notes");
        r
    } else {
        "Trash is empty".to_owned()
    }
}

/// The sync page's status line and explanation: connected to the server's
/// URL when the vault is paired, else offline.
pub fn sync_status(server_url: &Option<String>) -> (r: (&'static str, String))
    ensures
        match *server_url {
            Some(url) => r.0@ == "Connected"@ && r.1 == url,
            None => r.0@ == "Offline"@ && r.1@ == "This vault operates locally without a remote server"@,
        },
{
    match server_url {
        Some(url) => ("Connected", url.clone()),
        None => ("Offline", "This vault operates locally without a remote server".to_owned()),
    }
}

/// "n item" / "n items": a count with its noun, plural unless it is one.
pub open spec fn count_label_spec(count: nat, noun: Seq<char>) -> Seq<char> {
    decimal(count) + " "@ + noun + if count == 1 {
        Seq::empty()
    } else {
        "s"@
    }
}

/// A count with its noun, as the trash ("items") and starred ("notes")
/// headers show it.
pub fn count_label(count: u64, noun: &str) -> (r: String)
    ensures
        r@ == count_label_spec(count as nat, noun@),
{
    let mut r = u64_to_decimal(count);
    push_str(&mut r, " ");
    push_str(&mut r, noun);
    if count != 1 {
        push_str(&mut r, "s");
    }
    assert(r@ =~= count_label_spec(count as nat, noun@));
    r
}

/// The folder page's heading: the open folder's name, or "All Notes" at the
/// top level.
pub fn dashboard_title(folder_name: Option<String>) -> (r: String)
    ensures
        match folder_name {
            Some(name) => r == name,
            None => r@ == "All Notes"@,
        },
{
    match folder_name {
        Some(name) => name,
        None => "All Notes".to_owned(),
    }
}

/// The folder shown above a note: its folder's name, or "Notes" when the
/// note is in no folder (or none is selected).
pub fn note_folder_label(folder_name: Option<String>) -> (r: String)
    ensures
        match folder_name {
            Some(name) => r == name,
            None => r@ == "Notes"@,
        },
{
    match folder_name {
        Some(name) => name,
        None => "Notes".to_owned(),
    }
}

/// "n Notes • m Subfolders", under the folder page's heading.
pub fn dashboard_summary(notes: u64, subfolders: u64) -> (r: String)
    ensures
        r@ == decimal(notes as nat) + " Notes • "@ + decimal(subfolders as nat) + " Subfolders"@,
{
    let mut r = u64_to_decimal(notes);
    push_str(&mut r, " Notes • ");
    let m = u64_to_decimal(subfolders);
    push_str(&mut r, m.as_str());
    push_str(&mut r, " Subfolders");
    r
}

/// Subfolder cards per row on the folder page.
pub const CARDS_PER_ROW: usize = 4;

/// The number of cards on each row of the subfolder grid: full rows, then
/// what is left.
pub fn card_rows(cards: usize) -> (r: Vec<usize>)
    ensures
        r.len() == (cards + CARDS_PER_ROW - 1) / CARDS_PER_ROW as int,
        forall|i: int|
            0 <= i < r.len() ==> #[trigger] r@[i] == if cards - CARDS_PER_ROW * i
                >= CARDS_PER_ROW {
                CARDS_PER_ROW as int
            } else {
                cards - CARDS_PER_ROW * i
            },
{
    let mut r: Vec<usize> = Vec::new();
    let mut left: usize = cards;
    while left > 0
        invariant
            left <= cards,
            left + CARDS_PER_ROW * r.len() == cards,
            forall|i: int|
                0 <= i < r.len() ==> #[trigger] r@[i] == CARDS_PER_ROW as int,
        decreases left,
    {
        if left >= CARDS_PER_ROW {
            r.push(CARDS_PER_ROW);
            left -= CARDS_PER_ROW;
        } else {
            r.push(left);
            assert(r.len() == (cards + CARDS_PER_ROW - 1) / CARDS_PER_ROW as int);
            return r;
        }
    }
    r
}

/// Which steps of the folder page's path can be clicked: every ancestor but
/// the open folder itself.
pub fn breadcrumb_links(ancestors: &Vec<String>, selected: &Option<String>) -> (r: Vec<bool>)
    ensures
        r.len() == ancestors.len(),
        forall|i: int|
            0 <= i < r.len() ==> #[trigger] r@[i] == !(*selected matches Some(s) && s@
                == ancestors@[i]@),
{
    let mut r: Vec<bool> = Vec::new();
    let mut i: usize = 0;
    while i < ancestors.len()
        invariant
            i <= ancestors.len(),
            r.len() == i,
            forall|j: int|
                0 <= j < i ==> #[trigger] r@[j] == !(*selected matches Some(s) && s@
                    == ancestors@[j]@),
        decreases ancestors.len() - i,
    {
        let current = match selected {
            Some(s) => *s == ancestors[i],
            None => false,
        };
        r.push(!current);
        i += 1;
    }
    r
}

} // verus!
