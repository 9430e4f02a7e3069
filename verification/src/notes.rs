//! The note list pane: a section filter and a search query over note
//! summaries, and the selected note.
use vstd::prelude::*;
use crate::text::{
    concat, contains, lower_text, seq_contains, seq_starts_with, starts_with, str_eq, to_lowercase,
    trim, trimmed,
};

verus! {

/// What the note list shows of a note.
pub struct NoteSummary {
    pub id: String,
    pub title: String,
    pub snippet: String,
    pub updated_at: String,
    pub folder_id: Option<String>,
    pub folder_name: Option<String>,
    pub is_pinned: bool,
}

/// The note list pane.
pub struct NoteListView {
    pub notes: Vec<NoteSummary>,
    pub selected_note_id: Option<String>,
    pub search_query: String,
    pub active_section: String,
    pub active_title: String,
}

/// The note belongs to the section: every note to "all_notes", pinned notes
/// to "favorites", none to "trash"; for any other section id, taken as a
/// folder id, the notes of that folder and of the folders whose id extends
/// it after a ':'.
pub open spec fn in_section(n: NoteSummary, section: Seq<char>) -> bool {
    if section == "all_notes"@ {
        true
    } else if section == "favorites"@ {
        n.is_pinned
    } else if section == "trash"@ {
        false
    } else {
        match n.folder_id {
            Some(f) => f@ == section || seq_starts_with(f@, section + ":"@),
            None => false,
        }
    }
}

/// The note matches a lower-cased query: the query is empty, or it occurs in
/// the lower-cased title, snippet or folder name.
pub open spec fn matches_search(n: NoteSummary, q: Seq<char>) -> bool {
    ||| q.len() == 0
    ||| seq_contains(lower_text(n.title@), q)
    ||| seq_contains(lower_text(n.snippet@), q)
    ||| (n.folder_name matches Some(f) && seq_contains(lower_text(f@), q))
}

/// The query as it is matched: trimmed, then lower-cased.
pub open spec fn normalized_query(search: Seq<char>) -> Seq<char> {
    lower_text(trimmed(search))
}

/// The note is listed under the section and query.
pub open spec fn listed(n: NoteSummary, section: Seq<char>, search: Seq<char>) -> bool {
    in_section(n, section) && (trimmed(search).len() == 0 || matches_search(
        n,
        normalized_query(search),
    ))
}

/// The listed notes, in order.
pub open spec fn listed_notes(notes: Seq<NoteSummary>, section: Seq<char>, search: Seq<char>) -> Seq<
    NoteSummary,
> {
    notes.filter(|n: NoteSummary| listed(n, section, search))
}

/// The first note with the given id.
pub open spec fn first_with_id(notes: Seq<NoteSummary>, id: Seq<char>) -> Option<int> {
    if exists|i: int| 0 <= i < notes.len() && notes[i].id@ == id {
        Some(
            choose|i: int|
                0 <= i < notes.len() && notes[i].id@ == id && forall|j: int|
                    0 <= j < i ==> notes[j].id@ != id,
        )
    } else {
        None
    }
}

/// With a blank query, "All Notes" lists every note, in order, and the
/// trash section of the list lists none.
pub proof fn lemma_all_notes_lists_everything(notes: Seq<NoteSummary>, search: Seq<char>)
    requires
        trimmed(search).len() == 0,
    ensures
        listed_notes(notes, "all_notes"@, search) == notes,
        listed_notes(notes, "trash"@, search).len() == 0,
    decreases notes.len(),
{
    reveal_with_fuel(Seq::filter, 1);
    if notes.len() > 0 {
        lemma_all_notes_lists_everything(notes.drop_last(), search);
        assert(listed(notes.last(), "all_notes"@, search));
        assert(!listed(notes.last(), "trash"@, search)) by {
            reveal_strlit("all_notes");
            reveal_strlit("favorites");
            reveal_strlit("trash");
            assert("trash"@.len() != "all_notes"@.len());
            assert("trash"@.len() != "favorites"@.len());
        };
        assert(notes.drop_last().push(notes.last()) =~= notes);
    }
}

/// The favorites section lists exactly the pinned notes that match the
/// query, in order.
pub proof fn lemma_favorites_are_pinned(notes: Seq<NoteSummary>, search: Seq<char>)
    ensures
        forall|j: int|
            0 <= j < listed_notes(notes, "favorites"@, search).len() ==> (#[trigger] listed_notes(
                notes,
                "favorites"@,
                search,
            )[j]).is_pinned,
{
    reveal_strlit("all_notes");
    reveal_strlit("favorites");
    assert("favorites"@[0] != "all_notes"@[0]);
    let p = |n: NoteSummary| listed(n, "favorites"@, search);
    assert forall|j: int| 0 <= j < notes.filter(p).len() implies (#[trigger] notes.filter(p)[j]).is_pinned by {
        notes.lemma_filter_pred(p, j);
    };
}

/// The note has exactly these fields, filed in a folder.
pub open spec fn is_sample(
    n: NoteSummary,
    id: Seq<char>,
    title: Seq<char>,
    snippet: Seq<char>,
    updated_at: Seq<char>,
    folder_id: Seq<char>,
    folder_name: Seq<char>,
    is_pinned: bool,
) -> bool {
    &&& n.id@ == id
    &&& n.title@ == title
    &&& n.snippet@ == snippet
    &&& n.updated_at@ == updated_at
    &&& n.folder_id matches Some(f) && f@ == folder_id
    &&& n.folder_name matches Some(f) && f@ == folder_name
    &&& n.is_pinned == is_pinned
}

fn note(
    id: &str,
    title: &str,
    snippet: &str,
    updated_at: &str,
    folder_id: &str,
    folder_name: &str,
    is_pinned: bool,
) -> (n: NoteSummary)
    ensures
        n.id@ == id@,
        n.title@ == title@,
        n.snippet@ == snippet@,
        n.updated_at@ == updated_at@,
        n.folder_id matches Some(f) && f@ == folder_id@,
        n.folder_name matches Some(f) && f@ == folder_name@,
        n.is_pinned == is_pinned,
{
    NoteSummary {
        id: id.to_owned(),
        title: title.to_owned(),
        snippet: snippet.to_owned(),
        updated_at: updated_at.to_owned(),
        folder_id: Some(folder_id.to_owned()),
        folder_name: Some(folder_name.to_owned()),
        is_pinned,
    }
}

fn in_section_exec(n: &NoteSummary, section: &str) -> (r: bool)
    ensures
        r == in_section(*n, section@),
{
    if str_eq(section, "all_notes") {
        true
    } else if str_eq(section, "favorites") {
        n.is_pinned
    } else if str_eq(section, "trash") {
        false
    } else {
        match &n.folder_id {
            Some(f) => {
                if str_eq(f.as_str(), section) {
                    true
                } else {
                    let prefix = concat(section, ":");
                    starts_with(f.as_str(), prefix.as_str())
                }
            },
            None => false,
        }
    }
}

fn matches_search_exec(n: &NoteSummary, q: &str) -> (r: bool)
    ensures
        r == matches_search(*n, q@),
{
    if q.is_empty() {
        return true;
    }
    let title = to_lowercase(n.title.as_str());
    if contains(title.as_str(), q) {
        return true;
    }
    let snippet = to_lowercase(n.snippet.as_str());
    if contains(snippet.as_str(), q) {
        return true;
    }
    match &n.folder_name {
        Some(f) => {
            let folder = to_lowercase(f.as_str());
            contains(folder.as_str(), q)
        },
        None => false,
    }
}

impl NoteListView {
    /// The pane over the built-in sample notes, showing all notes with the
    /// architecture spec selected.
    pub fn new() -> (v: Self)
        ensures
            v.notes@.len() == 7,
            is_sample(
                v.notes@[0],
                "note-arch-spec"@,
                "System Architecture Spec"@,
                "Local-first SQLite with FTS5, CRDT synchronization, and DankeShell token design system."@,
                "Just now"@,
                "projects:architecture:core"@,
                "Core Engine"@,
                true,
            ),
            is_sample(
                v.notes@[1],
                "note-desktop-gpui"@,
                "Desktop Shell & GPUI Architecture"@,
                "Three-pane Obsidian-style layout, borderless note cards, twrite rope canvas rendering."@,
                "15m ago"@,
                "projects:architecture:desktop"@,
                "Desktop Shell"@,
                true,
            ),
            is_sample(
                v.notes@[2],
                "note-db-schema"@,
                "Database Schema & Index Design"@,
                "Tables for notes, folders, tags, sync operations log, and tokenized full-text search indexes."@,
                "2h ago"@,
                "projects"@,
                "Projects"@,
                false,
            ),
            is_sample(
                v.notes@[3],
                "note-ws-sync"@,
                "WebSocket Sync Protocol"@,
                "Bidirectional binary and JSON delta streaming between mobile client and desktop server."@,
                "Yesterday"@,
                "projects"@,
                "Projects"@,
                false,
            ),
            is_sample(
                v.notes@[4],
                "note-q3-roadmap"@,
                "Q3 Roadmap & Planning"@,
                "Offline-first conflict resolution, canvas mode, graph view, and end-to-end encryption."@,
                "Sep 12"@,
                "personal"@,
                "Personal"@,
                false,
            ),
            is_sample(
                v.notes@[5],
                "note-sprint-goals"@,
                "Weekly Sprint Goals"@,
                "Implement NoteList explorer pane, DankeShell card states, and twrite editor integration."@,
                "Sep 10"@,
                "personal"@,
                "Personal"@,
                false,
            ),
            is_sample(
                v.notes@[6],
                "note-design-inspo"@,
                "Design Inspiration: Obsidian x Notion"@,
                "Collapsible sidebar rail, clean hierarchy, distraction-free markdown canvas, quiet chrome."@,
                "Sep 8"@,
                "personal"@,
                "Personal"@,
                false,
            ),
            v.selected_note_id matches Some(s) && s@ == "note-arch-spec"@,
            v.search_query@.len() == 0,
            v.active_section@ == "all_notes"@,
            v.active_title@ == "All Notes"@,
    {
        let mut notes: Vec<NoteSummary> = Vec::new();
        notes.push(
            note(
                "note-arch-spec",
                "System Architecture Spec",
                "Local-first SQLite with FTS5, CRDT synchronization, and DankeShell token design system.",
                "Just now",
                "projects:architecture:core",
                "Core Engine",
                true,
            ),
        );
        notes.push(
            note(
                "note-desktop-gpui",
                "Desktop Shell & GPUI Architecture",
                "Three-pane Obsidian-style layout, borderless note cards, twrite rope canvas rendering.",
                "15m ago",
                "projects:architecture:desktop",
                "Desktop Shell",
                true,
            ),
        );
        notes.push(
            note(
                "note-db-schema",
                "Database Schema & Index Design",
                "Tables for notes, folders, tags, sync operations log, and tokenized full-text search indexes.",
                "2h ago",
                "projects",
                "Projects",
                false,
            ),
        );
        notes.push(
            note(
                "note-ws-sync",
                "WebSocket Sync Protocol",
                "Bidirectional binary and JSON delta streaming between mobile client and desktop server.",
                "Yesterday",
                "projects",
                "Projects",
                false,
            ),
        );
        notes.push(
            note(
                "note-q3-roadmap",
                "Q3 Roadmap & Planning",
                "Offline-first conflict resolution, canvas mode, graph view, and end-to-end encryption.",
                "Sep 12",
                "personal",
                "Personal",
                false,
            ),
        );
        notes.push(
            note(
                "note-sprint-goals",
                "Weekly Sprint Goals",
                "Implement NoteList explorer pane, DankeShell card states, and twrite editor integration.",
                "Sep 10",
                "personal",
                "Personal",
                false,
            ),
        );
        notes.push(
            note(
                "note-design-inspo",
                "Design Inspiration: Obsidian x Notion",
                "Collapsible sidebar rail, clean hierarchy, distraction-free markdown canvas, quiet chrome.",
                "Sep 8",
                "personal",
                "Personal",
                false,
            ),
        );
        NoteListView {
            notes,
            selected_note_id: Some("note-arch-spec".to_owned()),
            search_query: String::new(),
            active_section: "all_notes".to_owned(),
            active_title: "All Notes".to_owned(),
        }
    }

    /// Shows another section, under another heading.
    pub fn set_filter(&mut self, section_id: String, section_title: String)
        ensures
            final(self).active_section == section_id,
            final(self).active_title == section_title,
            final(self).notes == old(self).notes,
            final(self).selected_note_id == old(self).selected_note_id,
            final(self).search_query == old(self).search_query,
    {
        self.active_section = section_id;
        self.active_title = section_title;
    }

    /// Replaces the search query.
    pub fn set_search_query(&mut self, query: String)
        ensures
            final(self).search_query == query,
            final(self).notes == old(self).notes,
            final(self).selected_note_id == old(self).selected_note_id,
            final(self).active_section == old(self).active_section,
            final(self).active_title == old(self).active_title,
    {
        self.search_query = query;
    }

    /// Selects a note, or clears the selection.
    pub fn select_note(&mut self, id: Option<String>)
        ensures
            final(self).selected_note_id == id,
            final(self).notes == old(self).notes,
            final(self).search_query == old(self).search_query,
            final(self).active_section == old(self).active_section,
            final(self).active_title == old(self).active_title,
    {
        self.selected_note_id = id;
    }

    /// The id of the selected note.
    pub fn selected_note_id(&self) -> (r: Option<&String>)
        ensures
            match self.selected_note_id {
                Some(s) => r == Some(&s),
                None => r is None,
            },
    {
        self.selected_note_id.as_ref()
    }

    /// The first note whose id is the selected id, if any.
    pub fn selected_note(&self) -> (r: Option<&NoteSummary>)
        ensures
            match self.selected_note_id {
                Some(s) => match first_with_id(self.notes@, s@) {
                    Some(i) => r == Some(&self.notes@[i]),
                    None => r is None,
                },
                None => r is None,
            },
    {
        let id = match &self.selected_note_id {
            Some(id) => id,
            None => return None,
        };
        let mut i: usize = 0;
        while i < self.notes.len()
            invariant
                i <= self.notes.len(),
                self.selected_note_id == Some(*id),
                forall|j: int| 0 <= j < i ==> self.notes@[j].id@ != id@,
            decreases self.notes.len() - i,
        {
            if self.notes[i].id == *id {
                proof {
                    let k = choose|k: int|
                        0 <= k < self.notes.len() && self.notes@[k].id@ == id@ && forall|j: int|
                            0 <= j < k ==> self.notes@[j].id@ != id@;
                    assert(k == i);
                }
                return Some(&self.notes[i]);
            }
            i += 1;
        }
        None
    }

    /// Positions of the notes listed under the active section and query.
    pub fn filtered_indices(&self) -> (r: Vec<usize>)
        ensures
            r@.map_values(|i: usize| self.notes@[i as int]) == listed_notes(
                self.notes@,
                self.active_section@,
                self.search_query@,
            ),
            forall|k: int| 0 <= k < r.len() ==> #[trigger] r@[k] < self.notes.len(),
            forall|a: int, b: int| 0 <= a < b < r.len() ==> #[trigger] r@[a] < #[trigger] r@[b],
    {
        let trimmed_query = trim(self.search_query.as_str());
        let q = to_lowercase(trimmed_query.as_str());
        let ghost pred = |n: NoteSummary| listed(n, self.active_section@, self.search_query@);
        let mut out: Vec<usize> = Vec::new();
        let mut i: usize = 0;
        while i < self.notes.len()
            invariant
                i <= self.notes.len(),
                q@ == normalized_query(self.search_query@),
                (q@.len() == 0) == (trimmed(self.search_query@).len() == 0),
                pred == (|n: NoteSummary| listed(n, self.active_section@, self.search_query@)),
                out@.map_values(|k: usize| self.notes@[k as int]) == self.notes@.take(
                    i as int,
                ).filter(pred),
                forall|k: int| 0 <= k < out.len() ==> #[trigger] out@[k] < i,
                forall|a: int, b: int| 0 <= a < b < out.len() ==> #[trigger] out@[a] < #[trigger] out@[b],
            decreases self.notes.len() - i,
        {
            proof {
                assert(self.notes@.take(i + 1).drop_last() =~= self.notes@.take(i as int));
                reveal_with_fuel(Seq::filter, 1);
            }
            let keep = in_section_exec(&self.notes[i], self.active_section.as_str())
                && matches_search_exec(&self.notes[i], q.as_str());
            assert(keep == pred(self.notes@[i as int]));
            let ghost prev = out@;
            if keep {
                out.push(i);
            }
            assert(out@.map_values(|k: usize| self.notes@[k as int]) =~= self.notes@.take(
                i + 1,
            ).filter(pred)) by {
                assert(prev.map_values(|k: usize| self.notes@[k as int]) == self.notes@.take(
                    i as int,
                ).filter(pred));
            };
            i += 1;
        }
        assert(self.notes@.take(self.notes.len() as int) =~= self.notes@);
        out
    }

    /// The notes listed under the active section and query, in order.
    pub fn filtered_notes(&self) -> (r: Vec<&NoteSummary>)
        ensures
            r@.len() == listed_notes(self.notes@, self.active_section@, self.search_query@).len(),
            forall|k: int|
                0 <= k < r.len() ==> *r@[k] == listed_notes(
                    self.notes@,
                    self.active_section@,
                    self.search_query@,
                )[k],
    {
        let idx = self.filtered_indices();
        let mut out: Vec<&NoteSummary> = Vec::new();
        let mut k: usize = 0;
        while k < idx.len()
            invariant
                k <= idx.len(),
                out.len() == k,
                forall|j: int| 0 <= j < idx.len() ==> #[trigger] idx@[j] < self.notes.len(),
                forall|j: int| 0 <= j < k ==> *out@[j] == self.notes@[idx@[j] as int],
            decreases idx.len() - k,
        {
            out.push(&self.notes[idx[k]]);
            k += 1;
        }
        proof {
            let m = idx@.map_values(|i: usize| self.notes@[i as int]);
            assert forall|j: int| 0 <= j < out.len() implies *out@[j] == m[j] by {};
        }
        out
    }

    /// The listed notes split into the pinned ones and the rest, each part in
    /// list order (as positions into `notes`).
    pub fn pinned_and_regular(&self) -> (r: (Vec<usize>, Vec<usize>))
        ensures
            r.0@.map_values(|i: usize| self.notes@[i as int]) == listed_notes(
                self.notes@,
                self.active_section@,
                self.search_query@,
            ).filter(|n: NoteSummary| n.is_pinned),
            r.1@.map_values(|i: usize| self.notes@[i as int]) == listed_notes(
                self.notes@,
                self.active_section@,
                self.search_query@,
            ).filter(|n: NoteSummary| !n.is_pinned),
            forall|k: int| 0 <= k < r.0.len() ==> #[trigger] r.0@[k] < self.notes.len(),
            forall|k: int| 0 <= k < r.1.len() ==> #[trigger] r.1@[k] < self.notes.len(),
    {
        let idx = self.filtered_indices();
        let ghost all = listed_notes(self.notes@, self.active_section@, self.search_query@);
        let ghost pinned = |n: NoteSummary| n.is_pinned;
        let ghost regular = |n: NoteSummary| !n.is_pinned;
        let mut ps: Vec<usize> = Vec::new();
        let mut rs: Vec<usize> = Vec::new();
        let mut k: usize = 0;
        while k < idx.len()
            invariant
                k <= idx.len(),
                idx@.map_values(|i: usize| self.notes@[i as int]) == all,
                forall|j: int| 0 <= j < idx.len() ==> #[trigger] idx@[j] < self.notes.len(),
                pinned == (|n: NoteSummary| n.is_pinned),
                regular == (|n: NoteSummary| !n.is_pinned),
                ps@.map_values(|i: usize| self.notes@[i as int]) == all.take(k as int).filter(pinned),
                rs@.map_values(|i: usize| self.notes@[i as int]) == all.take(k as int).filter(regular),
                forall|j: int| 0 <= j < ps.len() ==> #[trigger] ps@[j] < self.notes.len(),
                forall|j: int| 0 <= j < rs.len() ==> #[trigger] rs@[j] < self.notes.len(),
            decreases idx.len() - k,
        {
            proof {
                assert(all.take(k + 1).drop_last() =~= all.take(k as int));
                reveal_with_fuel(Seq::filter, 1);
                assert(all[k as int] == self.notes@[idx@[k as int] as int]);
            }
            let i = idx[k];
            let ghost prev_p = ps@;
            let ghost prev_r = rs@;
            if self.notes[i].is_pinned {
                ps.push(i);
            } else {
                rs.push(i);
            }
            assert(ps@.map_values(|i: usize| self.notes@[i as int]) =~= all.take(k + 1).filter(
                pinned,
            )) by {
                assert(prev_p.map_values(|i: usize| self.notes@[i as int]) == all.take(
                    k as int,
                ).filter(pinned));
            };
            assert(rs@.map_values(|i: usize| self.notes@[i as int]) =~= all.take(k + 1).filter(
                regular,
            )) by {
                assert(prev_r.map_values(|i: usize| self.notes@[i as int]) == all.take(
                    k as int,
                ).filter(regular));
            };
            k += 1;
        }
        assert(all.take(idx.len() as int) =~= all);
        (ps, rs)
    }

    /// The hint shown when nothing is listed.
    pub fn empty_hint(&self) -> (r: &'static str)
        ensures
            self.search_query@.len() > 0 ==> r@ == "Try a different search query"@,
            self.search_query@.len() == 0 ==> r@ == "No notes in this section"@,
    {
        if !self.search_query.as_str().is_empty() {
            "Try a different search query"
        } else {
            "No notes in this section"
        }
    }
}

} // verus!
