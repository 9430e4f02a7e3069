//! The sidebar's folder tree: which rows are shown, in which order, and the
//! note count that each folder row carries.
use vstd::prelude::*;

verus! {

/// A folder as the store lists it: folders come in display (pre-)order, each
/// with its nesting depth.
pub struct FolderTreeNode {
    pub id: String,
    pub name: String,
    pub icon: String,
    pub parent_id: Option<String>,
    pub depth: usize,
}

/// What the sidebar reads of a note.
pub struct NoteEntry {
    pub id: String,
    pub title: String,
    pub folder_id: Option<String>,
    pub pinned: bool,
    pub trashed: bool,
}

/// One row of the sidebar tree.
pub enum TreeRow {
    Folder { id: String, name: String, icon: String, depth: usize, expanded: bool, count: usize },
    Note { note_index: usize, depth: usize },
}

// ---------------------------------------------------------------------------
// Specification
// ---------------------------------------------------------------------------

/// The note is live (not in the trash) and filed directly in folder `id`.
pub open spec fn active_in(n: NoteEntry, id: Seq<char>) -> bool {
    !n.trashed && n.folder_id is Some && n.folder_id->0@ == id
}

/// The note is live and filed in no folder.
pub open spec fn active_at_root(n: NoteEntry) -> bool {
    !n.trashed && n.folder_id is None
}

/// The folder's parent is `id`.
pub open spec fn parent_is(node: FolderTreeNode, id: Seq<char>) -> bool {
    node.parent_id is Some && node.parent_id->0@ == id
}

/// Number of live notes filed directly in folder `id`.
pub open spec fn count_in(notes: Seq<NoteEntry>, id: Seq<char>) -> nat
    decreases notes.len(),
{
    if notes.len() == 0 {
        0
    } else {
        count_in(notes.drop_last(), id) + if active_in(notes.last(), id) { 1nat } else { 0nat }
    }
}

/// The count that folder `id` holds once the folders `k..` have passed their
/// own counts up to their parents, the last folder first.  With `k == 0`
/// this is the count that a folder row shows.
pub open spec fn subtree_count(
    nodes: Seq<FolderTreeNode>,
    notes: Seq<NoteEntry>,
    k: int,
    id: Seq<char>,
) -> nat
    decreases nodes.len() - k,
{
    if 0 <= k < nodes.len() {
        let below = subtree_count(nodes, notes, k + 1, id);
        if parent_is(nodes[k], id) {
            below + subtree_count(nodes, notes, k + 1, nodes[k].id@)
        } else {
            below
        }
    } else {
        count_in(notes, id)
    }
}

/// No count that the computation forms exceeds `usize::MAX`.
pub open spec fn counts_fit(nodes: Seq<FolderTreeNode>, notes: Seq<NoteEntry>) -> bool {
    forall|k: int, j: int|
        0 <= k <= nodes.len() && 0 <= j < nodes.len() ==> #[trigger] subtree_count(
            nodes,
            notes,
            k,
            nodes[j].id@,
        ) <= usize::MAX
}

/// Every folder's depth leaves room for the rows of its notes one level below.
pub open spec fn depths_fit(nodes: Seq<FolderTreeNode>) -> bool {
    forall|i: int| 0 <= i < nodes.len() ==> #[trigger] nodes[i].depth < usize::MAX
}

/// `id` is among the expanded folder ids.
pub open spec fn expanded_has(expanded: Seq<String>, id: Seq<char>) -> bool {
    exists|i: int| 0 <= i < expanded.len() && #[trigger] expanded[i]@ == id
}

/// Folder `j` is collapsed and every folder strictly between `j` and `k`
/// lies deeper than it: a collapsed `j` hides such folders.
pub open spec fn blocks(nodes: Seq<FolderTreeNode>, expanded: Seq<String>, j: int, k: int) -> bool {
    &&& !expanded_has(expanded, nodes[j].id@)
    &&& forall|i: int| j < i < k ==> #[trigger] nodes[i].depth > nodes[j].depth
}

/// Folder `k` is shown: no collapsed folder above it hides it, that is, no
/// earlier collapsed folder has it, and all folders between, deeper than itself.
pub open spec fn visible(nodes: Seq<FolderTreeNode>, expanded: Seq<String>, k: int) -> bool {
    forall|j: int|
        0 <= j < k ==> !(#[trigger] blocks(nodes, expanded, j, k) && nodes[k].depth
            > nodes[j].depth)
}

/// The note is live and filed in folder `target`, or, for `None`, in no folder.
pub open spec fn note_matches(n: NoteEntry, target: Option<Seq<char>>) -> bool {
    match target {
        Some(f) => active_in(n, f),
        None => active_at_root(n),
    }
}

/// Rows, at `depth`, of the notes among `notes[..k]` that match `target`.
pub open spec fn note_rows(
    notes: Seq<NoteEntry>,
    k: int,
    target: Option<Seq<char>>,
    depth: usize,
) -> Seq<TreeRow>
    decreases k,
{
    if k <= 0 {
        Seq::<TreeRow>::empty()
    } else if note_matches(notes[k - 1], target) {
        note_rows(notes, k - 1, target, depth).push(
            TreeRow::Note { note_index: (k - 1) as usize, depth: depth },
        )
    } else {
        note_rows(notes, k - 1, target, depth)
    }
}

/// The row of folder `k`.
pub open spec fn folder_row(
    nodes: Seq<FolderTreeNode>,
    notes: Seq<NoteEntry>,
    expanded: Seq<String>,
    k: int,
) -> TreeRow {
    TreeRow::Folder {
        id: nodes[k].id,
        name: nodes[k].name,
        icon: nodes[k].icon,
        depth: nodes[k].depth,
        expanded: expanded_has(expanded, nodes[k].id@),
        count: subtree_count(nodes, notes, 0, nodes[k].id@) as usize,
    }
}

/// Rows contributed by folder `k`: nothing when hidden; else its own row,
/// followed, when it is expanded, by the rows of the live notes filed in it.
pub open spec fn segment(
    nodes: Seq<FolderTreeNode>,
    notes: Seq<NoteEntry>,
    expanded: Seq<String>,
    k: int,
) -> Seq<TreeRow> {
    if !visible(nodes, expanded, k) {
        Seq::<TreeRow>::empty()
    } else if expanded_has(expanded, nodes[k].id@) {
        seq![folder_row(nodes, notes, expanded, k)] + note_rows(
            notes,
            notes.len() as int,
            Some(nodes[k].id@),
            (nodes[k].depth + 1) as usize,
        )
    } else {
        seq![folder_row(nodes, notes, expanded, k)]
    }
}

/// Rows of the folders `..k`.
pub open spec fn folder_rows(
    nodes: Seq<FolderTreeNode>,
    notes: Seq<NoteEntry>,
    expanded: Seq<String>,
    k: int,
) -> Seq<TreeRow>
    decreases k,
{
    if k <= 0 {
        Seq::<TreeRow>::empty()
    } else {
        folder_rows(nodes, notes, expanded, k - 1) + segment(nodes, notes, expanded, k - 1)
    }
}

/// All rows: the folders in order, then the live notes that sit in no folder.
pub open spec fn tree_rows_spec(
    nodes: Seq<FolderTreeNode>,
    notes: Seq<NoteEntry>,
    expanded: Seq<String>,
) -> Seq<TreeRow> {
    folder_rows(nodes, notes, expanded, nodes.len() as int) + note_rows(
        notes,
        notes.len() as int,
        None,
        0,
    )
}


/// A row built from notes is a note row for a live note among the first
/// `k`, at `depth`, filed where `target` says.
proof fn lemma_note_rows_live(notes: Seq<NoteEntry>, k: int, target: Option<Seq<char>>, depth: usize)
    requires
        k <= notes.len(),
        notes.len() <= usize::MAX,
    ensures
        forall|j: int|
            0 <= j < note_rows(notes, k, target, depth).len() ==> (#[trigger] note_rows(
                notes,
                k,
                target,
                depth,
            )[j] matches TreeRow::Note { note_index, depth: d } && note_index < k && d == depth
                && !notes[note_index as int].trashed && match target {
                Some(f) => notes[note_index as int].folder_id is Some
                    && notes[note_index as int].folder_id->0@ == f,
                None => notes[note_index as int].folder_id is None,
            }),
    decreases k,
{
    if k > 0 {
        lemma_note_rows_live(notes, k - 1, target, depth);
        let prev = note_rows(notes, k - 1, target, depth);
        let cur = note_rows(notes, k, target, depth);
        assert forall|j: int| 0 <= j < cur.len() implies (#[trigger] cur[j] matches TreeRow::Note {
            note_index,
            depth: d,
        } && note_index < k && d == depth && !notes[note_index as int].trashed && match target {
            Some(f) => notes[note_index as int].folder_id is Some
                && notes[note_index as int].folder_id->0@ == f,
            None => notes[note_index as int].folder_id is None,
        }) by {
            if j < prev.len() {
                assert(cur[j] == prev[j]);
            }
        };
    }
}

/// The note rows among the rows of folders `..k`: each is a live note,
/// filed in some folder, one level below that folder.
proof fn lemma_folder_rows_notes_live(
    nodes: Seq<FolderTreeNode>,
    notes: Seq<NoteEntry>,
    expanded: Seq<String>,
    k: int,
)
    requires
        k <= nodes.len(),
        depths_fit(nodes),
        notes.len() <= usize::MAX,
    ensures
        forall|j: int|
            0 <= j < folder_rows(nodes, notes, expanded, k).len() ==> (#[trigger] folder_rows(
                nodes,
                notes,
                expanded,
                k,
            )[j] matches TreeRow::Note { note_index, depth } ==> note_index < notes.len()
                && !notes[note_index as int].trashed && notes[note_index as int].folder_id
                is Some && depth >= 1),
    decreases k,
{
    if k > 0 {
        lemma_folder_rows_notes_live(nodes, notes, expanded, k - 1);
        let prev = folder_rows(nodes, notes, expanded, k - 1);
        let seg = segment(nodes, notes, expanded, k - 1);
        let cur = folder_rows(nodes, notes, expanded, k);
        let d = (nodes[k - 1].depth + 1) as usize;
        lemma_note_rows_live(notes, notes.len() as int, Some(nodes[k - 1].id@), d);
        assert forall|j: int| 0 <= j < cur.len() implies (#[trigger] cur[j] matches TreeRow::Note {
            note_index,
            depth,
        } ==> note_index < notes.len() && !notes[note_index as int].trashed
            && notes[note_index as int].folder_id is Some && depth >= 1) by {
            if j < prev.len() {
                assert(cur[j] == prev[j]);
            } else {
                assert(cur[j] == seg[j - prev.len()]);
                if visible(nodes, expanded, k - 1) && expanded_has(expanded, nodes[k - 1].id@)
                    && j - prev.len() >= 1 {
                    let nr = note_rows(notes, notes.len() as int, Some(nodes[k - 1].id@), d);
                    assert(seg[j - prev.len()] == nr[j - prev.len() - 1]);
                }
            }
        };
    }
}

/// Every note row of the sidebar tree shows a live note (never one in the
/// trash): at the top level (depth 0) a note filed in no folder, and below
/// a folder (depth 1 or more) a note filed in a folder.
pub proof fn lemma_tree_note_rows_are_live(
    nodes: Seq<FolderTreeNode>,
    notes: Seq<NoteEntry>,
    expanded: Seq<String>,
)
    requires
        depths_fit(nodes),
        notes.len() <= usize::MAX,
    ensures
        forall|j: int|
            0 <= j < tree_rows_spec(nodes, notes, expanded).len() ==> (#[trigger] tree_rows_spec(
                nodes,
                notes,
                expanded,
            )[j] matches TreeRow::Note { note_index, depth } ==> note_index < notes.len()
                && !notes[note_index as int].trashed && (depth == 0) == (
            notes[note_index as int].folder_id is None)),
{
    let f = folder_rows(nodes, notes, expanded, nodes.len() as int);
    let r = note_rows(notes, notes.len() as int, None, 0);
    let all = tree_rows_spec(nodes, notes, expanded);
    lemma_folder_rows_notes_live(nodes, notes, expanded, nodes.len() as int);
    lemma_note_rows_live(notes, notes.len() as int, None, 0);
    assert forall|j: int| 0 <= j < all.len() implies (#[trigger] all[j] matches TreeRow::Note {
        note_index,
        depth,
    } ==> note_index < notes.len() && !notes[note_index as int].trashed && (depth == 0) == (
    notes[note_index as int].folder_id is None)) by {
        if j < f.len() {
            assert(all[j] == f[j]);
        } else {
            assert(all[j] == r[j - f.len()]);
        }
    };
}

// ---------------------------------------------------------------------------
// Implementation
// ---------------------------------------------------------------------------

/// Is `id` among the expanded folder ids?
pub fn expanded_contains(expanded: &Vec<String>, id: &String) -> (r: bool)
    ensures
        r == expanded_has(expanded@, id@),
{
    let mut i: usize = 0;
    while i < expanded.len()
        invariant
            i <= expanded.len(),
            forall|j: int| 0 <= j < i ==> expanded@[j]@ != id@,
        decreases expanded.len() - i,
    {
        if expanded[i] == *id {
            return true;
        }
        i += 1;
    }
    false
}

fn is_active_in(n: &NoteEntry, id: &String) -> (r: bool)
    ensures
        r == active_in(*n, id@),
{
    match &n.folder_id {
        Some(f) => !n.trashed && *f == *id,
        None => false,
    }
}

proof fn lemma_count_in_bound(notes: Seq<NoteEntry>, id: Seq<char>)
    ensures
        count_in(notes, id) <= notes.len(),
    decreases notes.len(),
{
    if notes.len() > 0 {
        lemma_count_in_bound(notes.drop_last(), id);
    }
}

/// Number of live notes filed directly in `id`.
fn direct_count(notes: &Vec<NoteEntry>, id: &String) -> (r: usize)
    ensures
        r == count_in(notes@, id@),
{
    let mut c: usize = 0;
    let mut i: usize = 0;
    while i < notes.len()
        invariant
            i <= notes.len(),
            c == count_in(notes@.take(i as int), id@),
            c <= i,
        decreases notes.len() - i,
    {
        assert(notes@.take(i + 1).drop_last() =~= notes@.take(i as int));
        if is_active_in(&notes[i], id) {
            c += 1;
        }
        i += 1;
    }
    assert(notes@.take(notes.len() as int) =~= notes@);
    c
}

/// Appends the rows of the live notes in `notes` that sit directly in folder
/// `id` (or, with `id == None`, in no folder), at `depth`.
fn push_note_rows(rows: &mut Vec<TreeRow>, notes: &Vec<NoteEntry>, id: Option<&String>, depth: usize)
    ensures
        final(rows)@ == old(rows)@ + note_rows(
            notes@,
            notes@.len() as int,
            match id {
                Some(f) => Some(f@),
                None => None,
            },
            depth,
        ),
{
    let ghost target = match id {
        Some(f) => Some(f@),
        None => None::<Seq<char>>,
    };
    let ghost start = rows@;
    let mut i: usize = 0;
    while i < notes.len()
        invariant
            i <= notes.len(),
            rows@ == start + note_rows(notes@, i as int, target, depth),
            target == match id {
                Some(f) => Some(f@),
                None => None::<Seq<char>>,
            },
        decreases notes.len() - i,
    {
        let take = match id {
            Some(f) => {
                assert(target == Some(f@));
                is_active_in(&notes[i], f)
            },
            None => {
                assert(target == None::<Seq<char>>);
                !notes[i].trashed && notes[i].folder_id.is_none()
            },
        };
        assert(take == note_matches(notes@[i as int], target));
        if take {
            rows.push(TreeRow::Note { note_index: i, depth });
        }
        i += 1;
    }
}

/// The counts that the folder rows show, one per folder, in folder order;
/// `None` when one of the sums formed on the way exceeds `usize::MAX`.
fn checked_folder_counts(nodes: &Vec<FolderTreeNode>, notes: &Vec<NoteEntry>) -> (r: Option<
    Vec<usize>,
>)
    ensures
        r is Some <==> counts_fit(nodes@, notes@),
        r matches Some(counts) ==> counts.len() == nodes.len() && forall|j: int|
            0 <= j < nodes.len() ==> counts@[j] == subtree_count(nodes@, notes@, 0, nodes@[j].id@),
{
    let n = nodes.len();
    let mut counts: Vec<usize> = Vec::new();
    let mut j: usize = 0;
    while j < n
        invariant
            n == nodes.len(),
            j <= n,
            counts.len() == j,
            forall|i: int|
                0 <= i < j ==> counts@[i] == subtree_count(nodes@, notes@, n as int, nodes@[i].id@),
        decreases n - j,
    {
        let c = direct_count(notes, &nodes[j].id);
        counts.push(c);
        j += 1;
    }
    let total = notes.len();
    assert forall|k2: int, i: int|
        n <= k2 <= n && 0 <= i < n implies #[trigger] subtree_count(
        nodes@,
        notes@,
        k2,
        nodes@[i].id@,
    ) <= usize::MAX by {
        lemma_count_in_bound(notes@, nodes@[i].id@);
        assert(subtree_count(nodes@, notes@, k2, nodes@[i].id@) == count_in(notes@, nodes@[i].id@));
        assert(notes@.len() == total);
    };
    let mut k: usize = n;
    while k > 0
        invariant
            n == nodes.len(),
            k <= n,
            counts.len() == n,
            forall|i: int|
                0 <= i < n ==> counts@[i] == subtree_count(nodes@, notes@, k as int, nodes@[i].id@),
            forall|k2: int, i: int|
                k <= k2 <= n && 0 <= i < n ==> #[trigger] subtree_count(
                    nodes@,
                    notes@,
                    k2,
                    nodes@[i].id@,
                ) <= usize::MAX,
        decreases k,
    {
        k -= 1;
        let c = counts[k];
        match &nodes[k].parent_id {
            Some(p) => {
                let mut j: usize = 0;
                while j < n
                    invariant
                        n == nodes.len(),
                        k < n,
                        j <= n,
                        counts.len() == n,
                        nodes@[k as int].parent_id == Some(*p),
                        c == subtree_count(nodes@, notes@, k + 1, nodes@[k as int].id@),
                        forall|i: int|
                            0 <= i < j ==> counts@[i] == subtree_count(
                                nodes@,
                                notes@,
                                k as int,
                                nodes@[i].id@,
                            ),
                        forall|i: int|
                            j <= i < n ==> counts@[i] == subtree_count(
                                nodes@,
                                notes@,
                                k + 1,
                                nodes@[i].id@,
                            ),
                    decreases n - j,
                {
                    if nodes[j].id == *p {
                        match counts[j].checked_add(c) {
                            Some(v) => {
                                counts.set(j, v);
                            },
                            None => {
                                assert(subtree_count(nodes@, notes@, k as int, nodes@[j as int].id@)
                                    > usize::MAX);
                                return None;
                            },
                        }
                    }
                    j += 1;
                }
            },
            None => {},
        }
        assert forall|k2: int, i: int|
            k <= k2 <= n && 0 <= i < n implies #[trigger] subtree_count(
            nodes@,
            notes@,
            k2,
            nodes@[i].id@,
        ) <= usize::MAX by {
            if k2 == k {
                assert(counts@[i] == subtree_count(nodes@, notes@, k as int, nodes@[i].id@));
            }
        };
    }
    Some(counts)
}

/// Whether the rows can be built for these folders and notes: no count sum
/// exceeds `usize::MAX`, and each folder leaves room for a deeper level.
pub fn tree_fits(nodes: &Vec<FolderTreeNode>, notes: &Vec<NoteEntry>) -> (r: bool)
    ensures
        r == (counts_fit(nodes@, notes@) && depths_fit(nodes@)),
{
    let mut i: usize = 0;
    while i < nodes.len()
        invariant
            i <= nodes.len(),
            forall|j: int| 0 <= j < i ==> #[trigger] nodes@[j].depth < usize::MAX,
        decreases nodes.len() - i,
    {
        if nodes[i].depth == usize::MAX {
            return false;
        }
        i += 1;
    }
    checked_folder_counts(nodes, notes).is_some()
}

/// The sidebar rows for the given folders, notes and expanded folder ids.
pub fn tree_rows(nodes: &Vec<FolderTreeNode>, notes: &Vec<NoteEntry>, expanded: &Vec<String>) -> (rows:
    Vec<TreeRow>)
    requires
        counts_fit(nodes@, notes@),
        depths_fit(nodes@),
    ensures
        rows@ == tree_rows_spec(nodes@, notes@, expanded@),
{
    let counts = checked_folder_counts(nodes, notes).unwrap();
    let n = nodes.len();
    let mut rows: Vec<TreeRow> = Vec::new();
    let mut skip_below: Option<usize> = None;
    let ghost mut j0: int = 0;
    let mut k: usize = 0;
    while k < n
        invariant
            n == nodes.len(),
            k <= n,
            counts.len() == n,
            depths_fit(nodes@),
            forall|j: int|
                0 <= j < n ==> counts@[j] == subtree_count(nodes@, notes@, 0, nodes@[j].id@),
            rows@ == folder_rows(nodes@, notes@, expanded@, k as int),
            skip_below is None ==> forall|j: int|
                0 <= j < k ==> !#[trigger] blocks(nodes@, expanded@, j, k as int),
            skip_below is Some ==> {
                &&& 0 <= j0 < k
                &&& nodes@[j0].depth == skip_below->0
                &&& blocks(nodes@, expanded@, j0, k as int)
                &&& visible(nodes@, expanded@, j0)
            },
        decreases n - k,
    {
        let depth = nodes[k].depth;
        let ghost prev_skip = skip_below;
        let mut hidden = false;
        match skip_below {
            Some(d) => {
                if depth > d {
                    hidden = true;
                } else {
                    skip_below = None;
                }
            },
            None => {},
        }
        if hidden {
            proof {
                assert(!visible(nodes@, expanded@, k as int));
                assert forall|i: int| j0 < i < k + 1 implies #[trigger] nodes@[i].depth
                    > nodes@[j0].depth by {
                    if i < k {
                        assert(blocks(nodes@, expanded@, j0, k as int));
                    }
                };
                assert(blocks(nodes@, expanded@, j0, k + 1));
            }
            assert(rows@ =~= folder_rows(nodes@, notes@, expanded@, k + 1));
        } else {
            proof {
                if prev_skip is Some {
                    let d = prev_skip->0;
                    assert forall|j: int| 0 <= j < k implies !(#[trigger] blocks(
                        nodes@,
                        expanded@,
                        j,
                        k as int,
                    ) && nodes@[k as int].depth > nodes@[j].depth) by {
                        if blocks(nodes@, expanded@, j, k as int) && nodes@[k as int].depth
                            > nodes@[j].depth {
                            if j < j0 {
                                assert(nodes@[j0].depth > nodes@[j].depth);
                                assert forall|i: int| j < i < j0 implies #[trigger] nodes@[i].depth
                                    > nodes@[j].depth by {};
                                assert(blocks(nodes@, expanded@, j, j0));
                                assert(!visible(nodes@, expanded@, j0));
                            } else if j > j0 {
                                assert(nodes@[j].depth > d);
                            }
                        }
                    };
                }
            }
            assert(visible(nodes@, expanded@, k as int));
            let expanded_here = expanded_contains(expanded, &nodes[k].id);
            rows.push(
                TreeRow::Folder {
                    id: nodes[k].id.clone(),
                    name: nodes[k].name.clone(),
                    icon: nodes[k].icon.clone(),
                    depth,
                    expanded: expanded_here,
                    count: counts[k],
                },
            );
            if expanded_here {
                push_note_rows(&mut rows, notes, Some(&nodes[k].id), depth + 1);
                assert(rows@ =~= folder_rows(nodes@, notes@, expanded@, k + 1));
                proof {
                    assert forall|j: int| 0 <= j < k + 1 implies !#[trigger] blocks(
                        nodes@,
                        expanded@,
                        j,
                        k + 1,
                    ) by {
                        if j < k && blocks(nodes@, expanded@, j, k + 1) {
                            assert(nodes@[k as int].depth > nodes@[j].depth);
                            assert(blocks(nodes@, expanded@, j, k as int));
                        }
                    };
                }
            } else {
                skip_below = Some(depth);
                proof {
                    j0 = k as int;
                }
                assert(rows@ =~= folder_rows(nodes@, notes@, expanded@, k + 1));
            }
        }
        k += 1;
    }
    push_note_rows(&mut rows, notes, None, 0);
    rows
}

impl TreeRow {
    /// The id of the folder or note that a row shows, if the note exists.
    pub fn id(&self, notes: &Vec<NoteEntry>) -> (r: Option<String>)
        ensures
            match *self {
                TreeRow::Folder { id, .. } => r == Some(id),
                TreeRow::Note { note_index, .. } => if note_index < notes.len() {
                    r == Some(notes@[note_index as int].id)
                } else {
                    r is None
                },
            },
    {
        match self {
            TreeRow::Folder { id, .. } => Some(id.clone()),
            TreeRow::Note { note_index, .. } => {
                if *note_index < notes.len() {
                    Some(notes[*note_index].id.clone())
                } else {
                    None
                }
            },
        }
    }
}

/// Positions of the notes that are pinned and not in the trash.
pub open spec fn starred_spec(notes: Seq<NoteEntry>, k: int) -> Seq<usize>
    decreases k,
{
    if k <= 0 {
        Seq::empty()
    } else if notes[k - 1].pinned && !notes[k - 1].trashed {
        starred_spec(notes, k - 1).push((k - 1) as usize)
    } else {
        starred_spec(notes, k - 1)
    }
}

/// Positions, in order, of the notes that are pinned and not in the trash.
pub fn starred_indices(notes: &Vec<NoteEntry>) -> (r: Vec<usize>)
    ensures
        r@ == starred_spec(notes@, notes@.len() as int),
{
    let mut r: Vec<usize> = Vec::new();
    let mut i: usize = 0;
    while i < notes.len()
        invariant
            i <= notes.len(),
            r@ == starred_spec(notes@, i as int),
        decreases notes.len() - i,
    {
        if notes[i].pinned && !notes[i].trashed {
            r.push(i);
        }
        i += 1;
    }
    r
}

} // verus!
