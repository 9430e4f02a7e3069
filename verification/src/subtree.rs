//! What the folder rows mean in terms of the folder hierarchy.
//!
//! The rows compute a folder's count by passing each folder's count up to
//! its parent, the last folder first, and hide the folders that follow a
//! collapsed one at a greater depth.  When the store lists the folders
//! parents first, each id once (and, for hiding, each folder one level
//! below its parent and inside its parent's run of deeper folders), the
//! count is the number of live notes in the folder's subtree, and a folder
//! is shown exactly when all its ancestors are expanded.
use vstd::prelude::*;
use crate::tree::{
    blocks, count_in, counts_fit, expanded_has, folder_row, parent_is, subtree_count, visible,
    FolderTreeNode, NoteEntry, TreeRow,
};

verus! {

/// Folder ids are distinct, and no folder names itself or a folder listed
/// after it as its parent.
pub open spec fn folders_in_order(nodes: Seq<FolderTreeNode>) -> bool {
    &&& forall|a: int, b: int|
        0 <= a < b < nodes.len() ==> #[trigger] nodes[a].id@ != #[trigger] nodes[b].id@
    &&& forall|i: int, m: int|
        0 <= i <= m < nodes.len() ==> !parent_is(#[trigger] nodes[i], #[trigger] nodes[m].id@)
}

/// Folder `p`, at `k` or later, is the parent of folder `i`.
pub open spec fn parent_at(nodes: Seq<FolderTreeNode>, k: int, i: int, p: int) -> bool {
    k <= p < i && parent_is(nodes[i], nodes[p].id@)
}

/// Going up from folder `i` through parents listed at `k` or later, one
/// reaches a folder whose parent is `x`.
pub open spec fn below(nodes: Seq<FolderTreeNode>, k: int, i: int, x: Seq<char>) -> bool
    decreases i - k,
{
    if i < k || i >= nodes.len() {
        false
    } else if parent_is(nodes[i], x) {
        true
    } else if exists|p: int| parent_at(nodes, k, i, p) {
        below(nodes, k, choose|p: int| parent_at(nodes, k, i, p), x)
    } else {
        false
    }
}

/// Folder id `f` is `x`, or the id of a folder (at `k` or later) below `x`.
pub open spec fn reaches(nodes: Seq<FolderTreeNode>, k: int, f: Seq<char>, x: Seq<char>) -> bool {
    f == x || exists|i: int| k <= i < nodes.len() && nodes[i].id@ == f && #[trigger] below(nodes, k, i, x)
}

/// The note is live and filed in `x` or in a folder (at `k` or later) below it.
pub open spec fn counted(nodes: Seq<FolderTreeNode>, k: int, n: NoteEntry, x: Seq<char>) -> bool {
    !n.trashed && n.folder_id is Some && reaches(nodes, k, n.folder_id->0@, x)
}

/// The note is live and filed in folder `j` or in a folder below it.
pub open spec fn in_subtree(nodes: Seq<FolderTreeNode>, n: NoteEntry, j: int) -> bool {
    counted(nodes, 0, n, nodes[j].id@)
}

spec fn count_reaching(nodes: Seq<FolderTreeNode>, notes: Seq<NoteEntry>, k: int, x: Seq<char>) -> nat
    decreases notes.len(),
{
    if notes.len() == 0 {
        0
    } else {
        count_reaching(nodes, notes.drop_last(), k, x) + if counted(nodes, k, notes.last(), x) {
            1nat
        } else {
            0nat
        }
    }
}

proof fn lemma_parent_unique(nodes: Seq<FolderTreeNode>, i: int, p: int, q: int)
    requires
        folders_in_order(nodes),
        0 <= i < nodes.len(),
        0 <= p < nodes.len(),
        0 <= q < nodes.len(),
        parent_is(nodes[i], nodes[p].id@),
        parent_is(nodes[i], nodes[q].id@),
    ensures
        p == q,
{
    if p < q {
        assert(nodes[p].id@ != nodes[q].id@);
    } else if q < p {
        assert(nodes[q].id@ != nodes[p].id@);
    }
}

/// A chain through folders at `k + 1` or later also runs through folders at
/// `k` or later.
proof fn lemma_below_lift(nodes: Seq<FolderTreeNode>, k: int, i: int, x: Seq<char>)
    requires
        folders_in_order(nodes),
        0 <= k,
        below(nodes, k + 1, i, x),
    ensures
        below(nodes, k, i, x),
    decreases i - k,
{
    let k1 = k + 1;
    if !parent_is(nodes[i], x) {
        let p = choose|p: int| parent_at(nodes, k1, i, p);
        assert(parent_at(nodes, k, i, p));
        let q = choose|q: int| parent_at(nodes, k, i, q);
        lemma_parent_unique(nodes, i, p, q);
        lemma_below_lift(nodes, k, p, x);
    }
}

/// A chain that ends under folder `k` continues, through `k`, to `k`'s parent.
proof fn lemma_below_through(nodes: Seq<FolderTreeNode>, k: int, i: int, x: Seq<char>)
    requires
        folders_in_order(nodes),
        0 <= k < nodes.len(),
        parent_is(nodes[k], x),
        below(nodes, k + 1, i, nodes[k].id@),
    ensures
        below(nodes, k, i, x),
    decreases i - k,
{
    let k1 = k + 1;
    if !parent_is(nodes[i], x) {
        if parent_is(nodes[i], nodes[k].id@) {
            assert(parent_at(nodes, k, i, k));
            let q = choose|q: int| parent_at(nodes, k, i, q);
            lemma_parent_unique(nodes, i, k, q);
            assert(below(nodes, k, k, x));
        } else {
            let p = choose|p: int| parent_at(nodes, k1, i, p);
            lemma_below_through(nodes, k, p, x);
            assert(parent_at(nodes, k, i, p));
            let q = choose|q: int| parent_at(nodes, k, i, q);
            lemma_parent_unique(nodes, i, p, q);
        }
    }
}

/// A chain through folders at `k` or later either avoids folder `k`, or
/// ends at `k` (whose parent is then `x`).
proof fn lemma_below_split(nodes: Seq<FolderTreeNode>, k: int, i: int, x: Seq<char>)
    requires
        folders_in_order(nodes),
        0 <= k,
        below(nodes, k, i, x),
    ensures
        below(nodes, k + 1, i, x) || (parent_is(nodes[k], x) && (i == k || below(
            nodes,
            k + 1,
            i,
            nodes[k].id@,
        ))),
    decreases i - k,
{
    let k1 = k + 1;
    if i == k {
        assert(!exists|p: int| parent_at(nodes, k, i, p));
    } else if !parent_is(nodes[i], x) {
        let p = choose|p: int| parent_at(nodes, k, i, p);
        lemma_below_split(nodes, k, p, x);
        if p > k {
            assert(parent_at(nodes, k1, i, p));
            let q = choose|q: int| parent_at(nodes, k1, i, q);
            lemma_parent_unique(nodes, i, p, q);
        }
    }
}

/// When `x` is folder `k`'s parent, no chain through folders after `k`
/// ends both under `x` and under `k`.
proof fn lemma_below_disjoint(nodes: Seq<FolderTreeNode>, k: int, i: int, x: Seq<char>)
    requires
        folders_in_order(nodes),
        0 <= k < nodes.len(),
        parent_is(nodes[k], x),
    ensures
        !(below(nodes, k + 1, i, x) && below(nodes, k + 1, i, nodes[k].id@)),
    decreases i - k,
{
    let k1 = k + 1;
    let y = nodes[k].id@;
    if !(below(nodes, k + 1, i, x) && below(nodes, k + 1, i, y)) {
    } else if parent_is(nodes[i], x) {
        if parent_is(nodes[i], y) {
            assert(!parent_is(nodes[k], nodes[k].id@));
        } else {
            let p = choose|p: int| parent_at(nodes, k1, i, p);
            assert(!parent_is(nodes[k], nodes[p].id@));
        }
    } else if parent_is(nodes[i], y) {
        let p = choose|p: int| parent_at(nodes, k1, i, p);
        assert(nodes[k].id@ != nodes[p].id@);
    } else {
        let p = choose|p: int| parent_at(nodes, k1, i, p);
        lemma_below_disjoint(nodes, k, p, x);
    }
}

/// Passing folder `k`'s count up to its parent: a note counts for `x` from
/// `k` on exactly when it counts for `x` from `k + 1` on, or `x` is `k`'s
/// parent and it counts for `k`; never both.
proof fn lemma_counted_step(nodes: Seq<FolderTreeNode>, k: int, n: NoteEntry, x: Seq<char>)
    requires
        folders_in_order(nodes),
        0 <= k < nodes.len(),
    ensures
        counted(nodes, k, n, x) == (counted(nodes, k + 1, n, x) || (parent_is(nodes[k], x)
            && counted(nodes, k + 1, n, nodes[k].id@))),
        !(counted(nodes, k + 1, n, x) && parent_is(nodes[k], x) && counted(
            nodes,
            k + 1,
            n,
            nodes[k].id@,
        )),
{
    let k1 = k + 1;
    let y = nodes[k].id@;
    if !n.trashed && n.folder_id is Some {
        let f = n.folder_id->0@;
        if reaches(nodes, k, f, x) && f != x {
            let i = choose|i: int| k <= i < nodes.len() && nodes[i].id@ == f && #[trigger] below(nodes, k, i, x);
            lemma_below_split(nodes, k, i, x);
            if below(nodes, k1, i, x) {
                assert(reaches(nodes, k1, f, x));
            } else if i != k {
                assert(reaches(nodes, k1, f, y));
            }
        }
        if reaches(nodes, k1, f, x) && f != x {
            let i = choose|i: int| k1 <= i < nodes.len() && nodes[i].id@ == f && #[trigger] below(nodes, k1, i, x);
            lemma_below_lift(nodes, k, i, x);
            assert(reaches(nodes, k, f, x));
        }
        if parent_is(nodes[k], x) && reaches(nodes, k1, f, y) {
            if f == y {
                assert(below(nodes, k, k, x));
                assert(reaches(nodes, k, f, x));
            } else {
                let i = choose|i: int| k1 <= i < nodes.len() && nodes[i].id@ == f && #[trigger] below(nodes, k1, i, y);
                lemma_below_through(nodes, k, i, x);
                assert(reaches(nodes, k, f, x));
            }
            if reaches(nodes, k1, f, x) {
                assert(!parent_is(nodes[k], nodes[k].id@));
                if f == x {
                    if f != y {
                        let i = choose|i: int| k1 <= i < nodes.len() && nodes[i].id@ == f && #[trigger] below(nodes, k1, i, y);
                        assert(!parent_is(nodes[k], nodes[i].id@));
                    }
                } else {
                    let i = choose|i: int| k1 <= i < nodes.len() && nodes[i].id@ == f && #[trigger] below(nodes, k1, i, x);
                    if f == y {
                        assert(nodes[k].id@ != nodes[i].id@);
                    } else {
                        let i2 = choose|i2: int| k1 <= i2 < nodes.len() && nodes[i2].id@ == f && #[trigger] below(nodes, k1, i2, y);
                        if i < i2 {
                            assert(nodes[i].id@ != nodes[i2].id@);
                        } else if i2 < i {
                            assert(nodes[i2].id@ != nodes[i].id@);
                        }
                        lemma_below_disjoint(nodes, k, i, x);
                    }
                }
            }
        }
    }
}

proof fn lemma_count_step(nodes: Seq<FolderTreeNode>, notes: Seq<NoteEntry>, k: int, x: Seq<char>)
    requires
        folders_in_order(nodes),
        0 <= k < nodes.len(),
    ensures
        count_reaching(nodes, notes, k, x) == count_reaching(nodes, notes, k + 1, x) + if parent_is(
            nodes[k],
            x,
        ) {
            count_reaching(nodes, notes, k + 1, nodes[k].id@)
        } else {
            0
        },
    decreases notes.len(),
{
    if notes.len() > 0 {
        lemma_count_step(nodes, notes.drop_last(), k, x);
        lemma_counted_step(nodes, k, notes.last(), x);
    }
}

proof fn lemma_count_base(nodes: Seq<FolderTreeNode>, notes: Seq<NoteEntry>, x: Seq<char>)
    ensures
        count_reaching(nodes, notes, nodes.len() as int, x) == count_in(notes, x),
    decreases notes.len(),
{
    if notes.len() > 0 {
        lemma_count_base(nodes, notes.drop_last(), x);
        let n = notes.last();
        if n.folder_id is Some {
            let f = n.folder_id->0@;
            assert(reaches(nodes, nodes.len() as int, f, x) == (f == x));
        }
    }
}

proof fn lemma_subtree_count_reaching(
    nodes: Seq<FolderTreeNode>,
    notes: Seq<NoteEntry>,
    k: int,
    x: Seq<char>,
)
    requires
        folders_in_order(nodes),
        0 <= k <= nodes.len(),
    ensures
        subtree_count(nodes, notes, k, x) == count_reaching(nodes, notes, k, x),
    decreases nodes.len() - k,
{
    if k < nodes.len() {
        lemma_subtree_count_reaching(nodes, notes, k + 1, x);
        lemma_subtree_count_reaching(nodes, notes, k + 1, nodes[k].id@);
        lemma_count_step(nodes, notes, k, x);
    } else {
        lemma_count_base(nodes, notes, x);
    }
}

proof fn lemma_count_reaching_filter(nodes: Seq<FolderTreeNode>, notes: Seq<NoteEntry>, j: int)
    requires
        0 <= j < nodes.len(),
    ensures
        count_reaching(nodes, notes, 0, nodes[j].id@) == notes.filter(
            |n: NoteEntry| in_subtree(nodes, n, j),
        ).len(),
    decreases notes.len(),
{
    reveal_with_fuel(Seq::filter, 1);
    if notes.len() > 0 {
        lemma_count_reaching_filter(nodes, notes.drop_last(), j);
    }
}

/// The count on a folder's row is the number of live notes filed in that
/// folder or in any folder below it, when the folders come parents first
/// and each id once.
pub proof fn lemma_folder_count_is_subtree_total(
    nodes: Seq<FolderTreeNode>,
    notes: Seq<NoteEntry>,
    expanded: Seq<String>,
    j: int,
)
    requires
        folders_in_order(nodes),
        0 <= j < nodes.len(),
    ensures
        subtree_count(nodes, notes, 0, nodes[j].id@) == notes.filter(
            |n: NoteEntry| in_subtree(nodes, n, j),
        ).len(),
        counts_fit(nodes, notes) ==> (folder_row(nodes, notes, expanded, j) matches TreeRow::Folder {
            count,
            ..
        } && count == notes.filter(|n: NoteEntry| in_subtree(nodes, n, j)).len()),
{
    lemma_subtree_count_reaching(nodes, notes, 0, nodes[j].id@);
    lemma_count_reaching_filter(nodes, notes, j);
    if counts_fit(nodes, notes) {
        assert(subtree_count(nodes, notes, 0, nodes[j].id@) <= usize::MAX);
    }
}

proof fn lemma_count_reaching_bound(
    nodes: Seq<FolderTreeNode>,
    notes: Seq<NoteEntry>,
    k: int,
    x: Seq<char>,
)
    ensures
        count_reaching(nodes, notes, k, x) <= notes.len(),
    decreases notes.len(),
{
    if notes.len() > 0 {
        lemma_count_reaching_bound(nodes, notes.drop_last(), k, x);
    }
}

/// When the folders come parents first and each id once, every count formed
/// while the rows are built is at most the number of notes, so none exceeds
/// `usize::MAX`.
pub proof fn lemma_ordered_folders_fit(nodes: Seq<FolderTreeNode>, notes: Seq<NoteEntry>)
    requires
        folders_in_order(nodes),
        notes.len() <= usize::MAX,
    ensures
        counts_fit(nodes, notes),
{
    assert forall|k: int, j: int| 0 <= k <= nodes.len() && 0 <= j < nodes.len() implies #[trigger] subtree_count(
        nodes,
        notes,
        k,
        nodes[j].id@,
    ) <= usize::MAX by {
        lemma_subtree_count_reaching(nodes, notes, k, nodes[j].id@);
        lemma_count_reaching_bound(nodes, notes, k, nodes[j].id@);
    };
}

// ---------------------------------------------------------------------------
// Which folders are shown
// ---------------------------------------------------------------------------

/// Folder `i` sits at depth 0 when it has no parent; otherwise its parent
/// comes earlier, one level up, and every folder between the two is deeper
/// than the parent.
pub open spec fn shaped_at(nodes: Seq<FolderTreeNode>, i: int) -> bool {
    match nodes[i].parent_id {
        None => nodes[i].depth == 0,
        Some(_) => exists|p: int|
            #[trigger] parent_at(nodes, 0, i, p) && nodes[i].depth == nodes[p].depth + 1 && forall|
                m: int,
            |
                p < m < i ==> #[trigger] nodes[m].depth > nodes[p].depth,
    }
}

/// The folders form a tree listed depth-first, with their depths.
pub open spec fn tree_shaped(nodes: Seq<FolderTreeNode>) -> bool {
    forall|i: int| 0 <= i < nodes.len() ==> #[trigger] shaped_at(nodes, i)
}

/// Folder `j` is an ancestor of folder `k`.
pub open spec fn is_ancestor(nodes: Seq<FolderTreeNode>, j: int, k: int) -> bool {
    0 <= j < nodes.len() && below(nodes, 0, k, nodes[j].id@)
}

/// An ancestor comes before its descendants.
proof fn lemma_ancestor_before(nodes: Seq<FolderTreeNode>, j: int, k: int)
    requires
        folders_in_order(nodes),
        is_ancestor(nodes, j, k),
    ensures
        j < k,
    decreases k,
{
    if parent_is(nodes[k], nodes[j].id@) {
        if j >= k {
            assert(!parent_is(nodes[k], nodes[j].id@));
        }
    } else {
        let p = choose|p: int| parent_at(nodes, 0, k, p);
        lemma_ancestor_before(nodes, j, p);
    }
}

/// The parent that `shaped_at` speaks of is the one `below` follows.
proof fn lemma_shaped_parent(nodes: Seq<FolderTreeNode>, i: int) -> (p: int)
    requires
        folders_in_order(nodes),
        tree_shaped(nodes),
        0 <= i < nodes.len(),
        nodes[i].parent_id is Some,
    ensures
        parent_at(nodes, 0, i, p),
        nodes[i].depth == nodes[p].depth + 1,
        forall|m: int| p < m < i ==> #[trigger] nodes[m].depth > nodes[p].depth,
        forall|q: int| parent_at(nodes, 0, i, q) ==> q == p,
{
    assert(shaped_at(nodes, i));
    let p = choose|p: int|
        #[trigger] parent_at(nodes, 0, i, p) && nodes[i].depth == nodes[p].depth + 1 && forall|
            m: int,
        |
            p < m < i ==> #[trigger] nodes[m].depth > nodes[p].depth;
    assert forall|q: int| parent_at(nodes, 0, i, q) implies q == p by {
        lemma_parent_unique(nodes, i, p, q);
    };
    p
}

/// In a depth-first listing, `j` is an ancestor of `k` exactly when `k` and
/// every folder between them lie deeper than `j`.
proof fn lemma_ancestor_by_depth(nodes: Seq<FolderTreeNode>, j: int, k: int)
    requires
        folders_in_order(nodes),
        tree_shaped(nodes),
        0 <= j < k < nodes.len(),
    ensures
        is_ancestor(nodes, j, k) <==> (nodes[k].depth > nodes[j].depth && forall|m: int|
            j < m < k ==> #[trigger] nodes[m].depth > nodes[j].depth),
    decreases k,
{
    let deeper = nodes[k].depth > nodes[j].depth && forall|m: int|
        j < m < k ==> #[trigger] nodes[m].depth > nodes[j].depth;
    assert(shaped_at(nodes, k));
    if nodes[k].parent_id is None {
        assert(!below(nodes, 0, k, nodes[j].id@));
    } else {
        let p = lemma_shaped_parent(nodes, k);
        if p == j {
            assert(below(nodes, 0, k, nodes[j].id@));
        } else if p > j {
            lemma_ancestor_by_depth(nodes, j, p);
            if parent_is(nodes[k], nodes[j].id@) {
                assert(parent_at(nodes, 0, k, j));
            }
            assert(below(nodes, 0, k, nodes[j].id@) == below(nodes, 0, p, nodes[j].id@));
            if is_ancestor(nodes, j, p) {
                assert forall|m: int| j < m < k implies #[trigger] nodes[m].depth
                    > nodes[j].depth by {
                    if m > p {
                        assert(nodes[m].depth > nodes[p].depth);
                    }
                };
            }
            if deeper {
                assert(nodes[p].depth > nodes[j].depth);
            }
        } else {
            assert(nodes[j].depth > nodes[p].depth);
            if parent_is(nodes[k], nodes[j].id@) {
                assert(parent_at(nodes, 0, k, j));
            }
            if below(nodes, 0, k, nodes[j].id@) {
                lemma_ancestor_before(nodes, j, p);
            }
        }
    }
}

/// A folder row is shown exactly when every ancestor of the folder is
/// expanded, when the folders are listed depth-first, parents first, each
/// id once.
pub proof fn lemma_shown_iff_ancestors_expanded(
    nodes: Seq<FolderTreeNode>,
    expanded: Seq<String>,
    k: int,
)
    requires
        folders_in_order(nodes),
        tree_shaped(nodes),
        0 <= k < nodes.len(),
    ensures
        visible(nodes, expanded, k) <==> forall|j: int|
            #[trigger] is_ancestor(nodes, j, k) ==> expanded_has(expanded, nodes[j].id@),
{
    assert forall|j: int| 0 <= j < k implies (#[trigger] blocks(nodes, expanded, j, k)
        && nodes[k].depth > nodes[j].depth) == (is_ancestor(nodes, j, k) && !expanded_has(
        expanded,
        nodes[j].id@,
    )) by {
        lemma_ancestor_by_depth(nodes, j, k);
    };
    if visible(nodes, expanded, k) {
        assert forall|j: int| #[trigger] is_ancestor(nodes, j, k) implies expanded_has(
            expanded,
            nodes[j].id@,
        ) by {
            lemma_ancestor_before(nodes, j, k);
            if !expanded_has(expanded, nodes[j].id@) {
                assert(!(blocks(nodes, expanded, j, k) && nodes[k].depth > nodes[j].depth));
            }
        };
    }
}

} // verus!
