//! The files that differ between two revisions, and the order in which they are listed.
use crate::repo_path::{
    chars_less, law_path_order_irreflexive, law_path_order_total, law_path_order_transitive,
    path_less, RepoPath,
};
use crate::text::seq_view;
use vstd::hash_set::StringHashSet;
use vstd::prelude::*;

verus! {

/// The name of a git object.
#[derive(Clone, Copy, Debug, PartialEq, Eq)]
pub struct Oid {
    pub bytes: [u8; 20],
}

/// What happened to a file. A file that existed before carries the object it was.
#[derive(Clone, Copy, Debug, PartialEq, Eq)]
pub enum TreeDiffStatus {
    Added,
    Modified { old: Oid },
    Deleted { old: Oid },
}

impl TreeDiffStatus {
    /// The group in which a file is listed: added files, then modified ones, then deleted ones.
    pub open spec fn rank(self) -> nat {
        match self {
            TreeDiffStatus::Added => 0,
            TreeDiffStatus::Modified { .. } => 1,
            TreeDiffStatus::Deleted { .. } => 2,
        }
    }

    /// The group in which a file is listed.
    pub fn order(&self) -> (order: u8)
        ensures
            order == self.rank(),
    {
        match self {
            TreeDiffStatus::Added => 0,
            TreeDiffStatus::Modified { .. } => 1,
            TreeDiffStatus::Deleted { .. } => 2,
        }
    }
}

/// A file that differs.
#[derive(Debug, PartialEq, Eq)]
pub struct DiffEntry {
    pub path: RepoPath,
    pub status: TreeDiffStatus,
}

/// A file that differs, its path as text.
pub struct EntryModel {
    pub path: Seq<char>,
    pub status: TreeDiffStatus,
}

impl View for DiffEntry {
    type V = EntryModel;

    open spec fn view(&self) -> EntryModel {
        EntryModel { path: self.path@, status: self.status }
    }
}

impl Clone for DiffEntry {
    fn clone(&self) -> (entry: DiffEntry)
        ensures
            entry == *self,
    {
        DiffEntry { path: self.path.clone(), status: self.status }
    }
}

/// Whether a file is listed before another: by what happened to it, then by its path.
pub open spec fn entry_less(a: EntryModel, b: EntryModel) -> bool {
    a.status.rank() < b.status.rank() || (a.status.rank() == b.status.rank() && path_less(
        a.path,
        b.path,
    ))
}

/// Whether every file is listed after all that precede it.
pub open spec fn is_sorted(entries: Seq<EntryModel>) -> bool {
    forall|i: int, j: int|
        #![trigger entries[i], entries[j]]
        0 <= i < j < entries.len() ==> entry_less(entries[i], entries[j])
}

/// Whether `entries` lists the files of a diff, each once, in order.
pub open spec fn is_listing(
    diff: Map<Seq<char>, TreeDiffStatus>,
    entries: Seq<EntryModel>,
) -> bool {
    &&& is_sorted(entries)
    &&& forall|i: int|
        #![trigger entries[i]]
        0 <= i < entries.len() ==> diff.contains_pair(entries[i].path, entries[i].status)
    &&& forall|path: Seq<char>| #[trigger]
        diff.dom().contains(path) ==> exists|i: int|
            0 <= i < entries.len() && (#[trigger] entries[i]).path == path
}

/// The listing of a diff.
pub open spec fn listing(diff: Map<Seq<char>, TreeDiffStatus>) -> Seq<EntryModel> {
    choose|entries: Seq<EntryModel>| is_listing(diff, entries)
}

/// The listing of a diff that may not be known yet.
pub open spec fn listing_or_empty(diff: Option<Map<Seq<char>, TreeDiffStatus>>) -> Seq<EntryModel> {
    match diff {
        Some(diff) => listing(diff),
        None => Seq::empty(),
    }
}

/// Whether no two entries have the same path.
pub open spec fn distinct_paths(entries: Seq<EntryModel>) -> bool {
    forall|i: int, j: int|
        #![trigger entries[i], entries[j]]
        0 <= i < j < entries.len() ==> entries[i].path != entries[j].path
}

/// The paths of the entries.
spec fn paths_of(entries: Seq<EntryModel>) -> Seq<Seq<char>> {
    Seq::new(entries.len(), |i: int| entries[i].path)
}

/// What happened to each file, by path.
spec fn entry_map(entries: Seq<EntryModel>) -> Map<Seq<char>, TreeDiffStatus> {
    Map::new(
        |path: Seq<char>|
            exists|i: int| 0 <= i < entries.len() && (#[trigger] entries[i]).path == path,
        |path: Seq<char>|
            entries[choose|i: int|
                0 <= i < entries.len() && (#[trigger] entries[i]).path == path].status,
    )
}

/// The files that differ between two revisions, each with what happened to it.
pub struct TreeDiff {
    entries: Vec<DiffEntry>,
    paths: StringHashSet,
}

impl View for TreeDiff {
    type V = Map<Seq<char>, TreeDiffStatus>;

    closed spec fn view(&self) -> Map<Seq<char>, TreeDiffStatus> {
        entry_map(seq_view(self.entries@))
    }
}

/// An entry of a sequence without repeated paths is what its path is mapped to.
proof fn lemma_entry_map_at(entries: Seq<EntryModel>, i: int)
    requires
        distinct_paths(entries),
        0 <= i < entries.len(),
    ensures
        entry_map(entries).contains_pair(entries[i].path, entries[i].status),
{
    let path = entries[i].path;
    let j = choose|j: int| 0 <= j < entries.len() && (#[trigger] entries[j]).path == path;
    assert(entries[i].path == path);
    if i < j {
        assert(entries[i].path != entries[j].path);
    } else if j < i {
        assert(entries[j].path != entries[i].path);
    }
}

proof fn lemma_entry_map_push(entries: Seq<EntryModel>, entry: EntryModel)
    requires
        distinct_paths(entries),
        !entry_map(entries).dom().contains(entry.path),
    ensures
        distinct_paths(entries.push(entry)),
        entry_map(entries.push(entry)) == entry_map(entries).insert(entry.path, entry.status),
{
    let pushed = entries.push(entry);
    let n = entries.len() as int;
    assert forall|i: int, j: int|
        #![trigger pushed[i], pushed[j]]
        0 <= i < j < pushed.len() implies pushed[i].path != pushed[j].path by {
        assert(pushed[i] == entries[i]);
        if j < n {
            assert(entries[i].path != entries[j].path);
        }
    }
    lemma_entry_map_at(pushed, n);
    assert forall|path: Seq<char>| entry_map(pushed).dom().contains(path) == entry_map(
        entries,
    ).insert(entry.path, entry.status).dom().contains(path) by {
        if entry_map(pushed).dom().contains(path) {
            let i = choose|i: int| 0 <= i < pushed.len() && (#[trigger] pushed[i]).path == path;
            if i < n {
                assert(entries[i].path == path);
            }
        }
        if entry_map(entries).dom().contains(path) {
            let i = choose|i: int| 0 <= i < entries.len() && (#[trigger] entries[i]).path == path;
            assert(pushed[i].path == path);
        }
    }
    assert forall|path: Seq<char>| entry_map(entries).dom().contains(path) implies #[trigger]
        entry_map(pushed)[path] == entry_map(entries)[path] by {
        let i = choose|i: int| 0 <= i < entries.len() && (#[trigger] entries[i]).path == path;
        lemma_entry_map_at(entries, i);
        lemma_entry_map_at(pushed, i);
    }
    assert(entry_map(pushed) =~= entry_map(entries).insert(entry.path, entry.status));
}

proof fn lemma_entry_map_update(entries: Seq<EntryModel>, k: int, entry: EntryModel)
    requires
        distinct_paths(entries),
        0 <= k < entries.len(),
        entries[k].path == entry.path,
    ensures
        distinct_paths(entries.update(k, entry)),
        entry_map(entries.update(k, entry)) == entry_map(entries).insert(entry.path, entry.status),
{
    let updated = entries.update(k, entry);
    assert forall|i: int, j: int|
        #![trigger updated[i], updated[j]]
        0 <= i < j < updated.len() implies updated[i].path != updated[j].path by {
        assert(entries[i].path != entries[j].path);
    }
    lemma_entry_map_at(updated, k);
    lemma_entry_map_at(entries, k);
    assert forall|path: Seq<char>| entry_map(updated).dom().contains(path) == entry_map(
        entries,
    ).dom().contains(path) by {
        if entry_map(updated).dom().contains(path) {
            let i = choose|i: int| 0 <= i < updated.len() && (#[trigger] updated[i]).path == path;
            assert(entries[i].path == path);
        }
        if entry_map(entries).dom().contains(path) {
            let i = choose|i: int| 0 <= i < entries.len() && (#[trigger] entries[i]).path == path;
            assert(updated[i].path == path);
        }
    }
    assert forall|path: Seq<char>|
        path != entry.path && entry_map(entries).dom().contains(path) implies #[trigger] entry_map(
        updated,
    )[path] == entry_map(entries)[path] by {
        let i = choose|i: int| 0 <= i < entries.len() && (#[trigger] entries[i]).path == path;
        assert(updated[i] == entries[i]);
        lemma_entry_map_at(entries, i);
        lemma_entry_map_at(updated, i);
    }
    assert(entry_map(updated) =~= entry_map(entries).insert(entry.path, entry.status));
}

proof fn lemma_entry_map_len(entries: Seq<EntryModel>)
    requires
        distinct_paths(entries),
    ensures
        entry_map(entries).dom().finite(),
        entry_map(entries).dom().len() == entries.len(),
{
    let paths = paths_of(entries);
    assert(paths.no_duplicates()) by {
        assert forall|i: int, j: int|
            0 <= i < paths.len() && 0 <= j < paths.len() && i != j implies paths[i] != paths[j] by {
            if i < j {
                assert(entries[i].path != entries[j].path);
            } else {
                assert(entries[j].path != entries[i].path);
            }
        }
    }
    paths.unique_seq_to_set();
    assert forall|path: Seq<char>| entry_map(entries).dom().contains(path) == paths.to_set().contains(
        path,
    ) by {
        if entry_map(entries).dom().contains(path) {
            let i = choose|i: int| 0 <= i < entries.len() && (#[trigger] entries[i]).path == path;
            assert(paths[i] == path);
        }
        if paths.to_set().contains(path) {
            let i = choose|i: int| 0 <= i < paths.len() && paths[i] == path;
            assert(entries[i].path == path);
        }
    }
    assert(entry_map(entries).dom() =~= paths.to_set());
    vstd::seq_lib::seq_to_set_is_finite(paths);
}

impl TreeDiff {
    #[verifier::type_invariant]
    spec fn inv(self) -> bool {
        &&& distinct_paths(seq_view(self.entries@))
        &&& self.paths@ == self@.dom()
    }

    /// A diff without files.
    pub fn new() -> (diff: TreeDiff)
        ensures
            diff@ == Map::<Seq<char>, TreeDiffStatus>::empty(),
    {
        let entries: Vec<DiffEntry> = Vec::new();
        let paths = StringHashSet::new();
        proof {
            assert(entry_map(seq_view(entries@)) =~= Map::empty());
            assert(paths@ =~= entry_map(seq_view(entries@)).dom());
        }
        TreeDiff { entries, paths }
    }

    /// Records what happened to a file, in place of what was recorded for it before.
    pub fn insert(self, path: RepoPath, status: TreeDiffStatus) -> (diff: TreeDiff)
        ensures
            diff@ == self@.insert(path@, status),
    {
        proof {
            use_type_invariant(&self);
        }
        let ghost before = self@;
        let TreeDiff { mut entries, mut paths } = self;
        let ghost old_entries = seq_view(entries@);
        let ghost entry = EntryModel { path: path@, status };
        if paths.contains(path.as_str()) {
            let mut k: usize = 0;
            while k < entries.len() && !entries[k].path.same(&path)
                invariant
                    k <= entries@.len(),
                    old_entries == seq_view(entries@),
                    forall|i: int| 0 <= i < k ==> (#[trigger] old_entries[i]).path != path@,
                decreases entries@.len() - k,
            {
                assert(old_entries[k as int].path == entries@[k as int].path@);
                k = k + 1;
            }
            proof {
                let i = choose|i: int|
                    0 <= i < old_entries.len() && (#[trigger] old_entries[i]).path == path@;
                assert(old_entries[i].path == path@);
                assert(old_entries[k as int].path == path@);
                lemma_entry_map_update(old_entries, k as int, entry);
            }
            entries.set(k, DiffEntry { path, status });
            proof {
                assert(seq_view(entries@) =~= old_entries.update(k as int, entry));
                assert(paths@ =~= before.insert(path@, status).dom());
            }
        } else {
            proof {
                lemma_entry_map_push(old_entries, entry);
            }
            let text = path.as_str().to_string();
            paths.insert(text);
            entries.push(DiffEntry { path, status });
            proof {
                assert(seq_view(entries@) =~= old_entries.push(entry));
                assert(paths@ =~= before.insert(path@, status).dom());
            }
        }
        TreeDiff { entries, paths }
    }

    /// How many files differ.
    pub fn len(&self) -> (len: usize)
        ensures
            self@.dom().finite(),
            len == self@.dom().len(),
    {
        proof {
            use_type_invariant(self);
            lemma_entry_map_len(seq_view(self.entries@));
        }
        self.entries.len()
    }
}

/// The order of listing is strict: no file is listed before itself.
pub proof fn law_entry_order_irreflexive(a: EntryModel)
    ensures
        !entry_less(a, a),
{
    law_path_order_irreflexive(a.path);
}

/// The order of listing is transitive.
pub proof fn law_entry_order_transitive(a: EntryModel, b: EntryModel, c: EntryModel)
    requires
        entry_less(a, b),
        entry_less(b, c),
    ensures
        entry_less(a, c),
{
    if path_less(a.path, b.path) && path_less(b.path, c.path) {
        law_path_order_transitive(a.path, b.path, c.path);
    }
}

/// Of two files with different paths one is listed before the other.
pub proof fn law_entry_order_total(a: EntryModel, b: EntryModel)
    requires
        a.path != b.path,
    ensures
        entry_less(a, b) || entry_less(b, a),
{
    law_path_order_total(a.path, b.path);
}

proof fn lemma_sorted_unique(a: Seq<EntryModel>, b: Seq<EntryModel>)
    requires
        is_sorted(a),
        is_sorted(b),
        forall|e: EntryModel| #[trigger] a.contains(e) <==> b.contains(e),
    ensures
        a == b,
    decreases a.len(),
{
    if a.len() == 0 {
        if b.len() > 0 {
            assert(b.contains(b[0]));
            assert(a.contains(b[0]));
        }
        assert(a =~= b);
    } else {
        let x = a.last();
        assert(a.contains(x));
        let j = choose|j: int| 0 <= j < b.len() && b[j] == x;
        let y = b.last();
        assert(b.contains(y));
        assert(a.contains(y));
        let k = choose|k: int| 0 <= k < a.len() && a[k] == y;
        if x != y {
            assert(entry_less(b[j], b[b.len() - 1]));
            assert(entry_less(a[k], a[a.len() - 1]));
            law_entry_order_transitive(x, y, x);
            law_entry_order_irreflexive(x);
        }
        let da = a.drop_last();
        let db = b.drop_last();
        assert forall|e: EntryModel| #[trigger] da.contains(e) <==> db.contains(e) by {
            if da.contains(e) {
                let i = choose|i: int| 0 <= i < da.len() && da[i] == e;
                assert(a[i] == e);
                assert(a.contains(e));
                let m = choose|m: int| 0 <= m < b.len() && b[m] == e;
                assert(entry_less(a[i], a[a.len() - 1]));
                law_entry_order_irreflexive(e);
                assert(db[m] == e);
            }
            if db.contains(e) {
                let i = choose|i: int| 0 <= i < db.len() && db[i] == e;
                assert(b[i] == e);
                assert(b.contains(e));
                assert(a.contains(e));
                let m = choose|m: int| 0 <= m < a.len() && a[m] == e;
                assert(entry_less(b[i], b[b.len() - 1]));
                law_entry_order_irreflexive(e);
                assert(da[m] == e);
            }
        }
        lemma_sorted_unique(da, db);
        assert(a =~= da.push(x));
        assert(b =~= db.push(y));
    }
}

/// A diff has one listing only, in whatever order its files were recorded.
pub proof fn law_listing_unique(
    diff: Map<Seq<char>, TreeDiffStatus>,
    a: Seq<EntryModel>,
    b: Seq<EntryModel>,
)
    requires
        is_listing(diff, a),
        is_listing(diff, b),
    ensures
        a == b,
{
    assert forall|e: EntryModel| #[trigger] a.contains(e) <==> b.contains(e) by {
        if a.contains(e) {
            let i = choose|i: int| 0 <= i < a.len() && a[i] == e;
            assert(diff.contains_pair(a[i].path, a[i].status));
            let j = choose|j: int| 0 <= j < b.len() && (#[trigger] b[j]).path == e.path;
            assert(b[j] == e);
        }
        if b.contains(e) {
            let i = choose|i: int| 0 <= i < b.len() && b[i] == e;
            assert(diff.contains_pair(b[i].path, b[i].status));
            let j = choose|j: int| 0 <= j < a.len() && (#[trigger] a[j]).path == e.path;
            assert(a[j] == e);
        }
    }
    lemma_sorted_unique(a, b);
}

/// A listing names no path twice.
pub proof fn law_listing_distinct(
    diff: Map<Seq<char>, TreeDiffStatus>,
    entries: Seq<EntryModel>,
)
    requires
        is_listing(diff, entries),
    ensures
        distinct_paths(entries),
{
    assert forall|i: int, j: int|
        #![trigger entries[i], entries[j]]
        0 <= i < j < entries.len() implies entries[i].path != entries[j].path by {
        if entries[i].path == entries[j].path {
            assert(entries[i] == entries[j]);
            law_entry_order_irreflexive(entries[i]);
        }
    }
}

/// A listing is as long as the diff has files.
pub proof fn law_listing_len(diff: Map<Seq<char>, TreeDiffStatus>, entries: Seq<EntryModel>)
    requires
        is_listing(diff, entries),
    ensures
        diff.dom().finite(),
        entries.len() == diff.dom().len(),
{
    law_listing_distinct(diff, entries);
    lemma_entry_map_len(entries);
    assert forall|path: Seq<char>| diff.dom().contains(path) == entry_map(entries).dom().contains(
        path,
    ) by {
        if entry_map(entries).dom().contains(path) {
            let i = choose|i: int| 0 <= i < entries.len() && (#[trigger] entries[i]).path == path;
            assert(diff.contains_pair(entries[i].path, entries[i].status));
        }
    }
    assert(diff.dom() =~= entry_map(entries).dom());
}

/// Whether the entries at the given positions are in the order of listing.
spec fn positions_sorted(entries: Seq<EntryModel>, positions: Seq<usize>) -> bool {
    forall|i: int, j: int|
        #![trigger positions[i], positions[j]]
        0 <= i < j < positions.len() ==> entry_less(
            entries[positions[i] as int],
            entries[positions[j] as int],
        )
}

/// Whether the positions are those from `from` up to `to`.
spec fn positions_cover(positions: Seq<usize>, from: int, to: int) -> bool {
    &&& forall|i: int| 0 <= i < positions.len() ==> from <= #[trigger] positions[i] < to
    &&& forall|k: usize| from <= k < to ==> #[trigger] positions.contains(k)
}

/// Whether the file at one position is listed before the one at another; `keys` spells the paths.
fn position_less(entries: &Vec<DiffEntry>, keys: &Vec<Vec<char>>, a: usize, b: usize) -> (less:
    bool)
    requires
        a < entries@.len(),
        b < entries@.len(),
        keys@.len() == entries@.len(),
        keys@[a as int]@ == entries@[a as int].path@,
        keys@[b as int]@ == entries@[b as int].path@,
    ensures
        less == entry_less(entries@[a as int]@, entries@[b as int]@),
{
    let order_a: u8 = entries[a].status.order();
    let order_b: u8 = entries[b].status.order();
    order_a < order_b || (order_a == order_b && chars_less(&keys[a], &keys[b]))
}

/// Merges two sorted runs of positions.
fn merge(
    entries: &Vec<DiffEntry>,
    keys: &Vec<Vec<char>>,
    left: &Vec<usize>,
    right: &Vec<usize>,
    from: usize,
    mid: usize,
    to: usize,
) -> (merged: Vec<usize>)
    requires
        distinct_paths(seq_view(entries@)),
        from <= mid <= to <= entries@.len(),
        keys@.len() == entries@.len(),
        forall|i: int| 0 <= i < keys@.len() ==> (#[trigger] keys@[i])@ == entries@[i].path@,
        positions_sorted(seq_view(entries@), left@),
        positions_sorted(seq_view(entries@), right@),
        positions_cover(left@, from as int, mid as int),
        positions_cover(right@, mid as int, to as int),
    ensures
        positions_sorted(seq_view(entries@), merged@),
        positions_cover(merged@, from as int, to as int),
{
    let ghost models = seq_view(entries@);
    let mut merged: Vec<usize> = Vec::new();
    let mut i: usize = 0;
    let mut j: usize = 0;
    while i < left.len() || j < right.len()
        invariant
            models == seq_view(entries@),
            distinct_paths(models),
            from <= mid <= to <= entries@.len(),
            keys@.len() == entries@.len(),
            forall|i: int| 0 <= i < keys@.len() ==> (#[trigger] keys@[i])@ == entries@[i].path@,
            positions_sorted(models, left@),
            positions_sorted(models, right@),
            positions_cover(left@, from as int, mid as int),
            positions_cover(right@, mid as int, to as int),
            i <= left@.len(),
            j <= right@.len(),
            positions_sorted(models, merged@),
            forall|k: int| 0 <= k < merged@.len() ==> from <= #[trigger] merged@[k] < to,
            forall|k: int| 0 <= k < i ==> merged@.contains(#[trigger] left@[k]),
            forall|k: int| 0 <= k < j ==> merged@.contains(#[trigger] right@[k]),
            forall|k: int, l: int|
                #![trigger merged@[k], left@[l]]
                0 <= k < merged@.len() && i <= l < left@.len() ==> entry_less(
                    models[merged@[k] as int],
                    models[left@[l] as int],
                ),
            forall|k: int, l: int|
                #![trigger merged@[k], right@[l]]
                0 <= k < merged@.len() && j <= l < right@.len() ==> entry_less(
                    models[merged@[k] as int],
                    models[right@[l] as int],
                ),
        decreases left@.len() - i + right@.len() - j,
    {
        let ghost before = merged@;
        let take_left: bool = if i == left.len() {
            false
        } else if j == right.len() {
            true
        } else {
            position_less(entries, keys, left[i], right[j])
        };
        if take_left {
            merged.push(left[i]);
            proof {
                let x = left@[i as int];
                assert forall|l: int| j <= l < right@.len() implies entry_less(
                    models[x as int],
                    models[#[trigger] right@[l] as int],
                ) by {
                    if l > j {
                        law_entry_order_transitive(
                            models[x as int],
                            models[right@[j as int] as int],
                            models[right@[l] as int],
                        );
                    }
                }
                lemma_contains_push(before, x);
            }
            i = i + 1;
        } else {
            merged.push(right[j]);
            proof {
                let x = right@[j as int];
                if i < left@.len() {
                    let y = left@[i as int];
                    assert(models[y as int].path != models[x as int].path);
                    law_entry_order_total(models[x as int], models[y as int]);
                }
                assert forall|l: int| i <= l < left@.len() implies entry_less(
                    models[x as int],
                    models[#[trigger] left@[l] as int],
                ) by {
                    if l > i {
                        law_entry_order_transitive(
                            models[x as int],
                            models[left@[i as int] as int],
                            models[left@[l] as int],
                        );
                    }
                }
                lemma_contains_push(before, x);
            }
            j = j + 1;
        }
    }
    proof {
        assert forall|k: usize| from <= k < to implies #[trigger] merged@.contains(k) by {
            if k < mid {
                assert(left@.contains(k));
                let n = choose|n: int| 0 <= n < left@.len() && left@[n] == k;
                assert(merged@.contains(left@[n]));
            } else {
                assert(right@.contains(k));
                let n = choose|n: int| 0 <= n < right@.len() && right@[n] == k;
                assert(merged@.contains(right@[n]));
            }
        }
    }
    merged
}

proof fn lemma_contains_push(positions: Seq<usize>, x: usize)
    ensures
        positions.push(x).contains(x),
        forall|y: usize| positions.contains(y) ==> #[trigger] positions.push(x).contains(y),
{
    assert(positions.push(x)[positions.len() as int] == x);
    assert forall|y: usize| positions.contains(y) implies #[trigger] positions.push(x).contains(
        y,
    ) by {
        let i = choose|i: int| 0 <= i < positions.len() && positions[i] == y;
        assert(positions.push(x)[i] == y);
    }
}

/// The positions from `from` up to `to`, in the order in which their entries are listed.
fn sort_positions(entries: &Vec<DiffEntry>, keys: &Vec<Vec<char>>, from: usize, to: usize) -> (
positions: Vec<usize>)
    requires
        distinct_paths(seq_view(entries@)),
        from <= to <= entries@.len(),
        keys@.len() == entries@.len(),
        forall|i: int| 0 <= i < keys@.len() ==> (#[trigger] keys@[i])@ == entries@[i].path@,
    ensures
        positions_sorted(seq_view(entries@), positions@),
        positions_cover(positions@, from as int, to as int),
    decreases to - from,
{
    let mut positions: Vec<usize> = Vec::new();
    if to - from == 0 {
        positions
    } else if to - from == 1 {
        positions.push(from);
        assert(positions@[0] == from);
        positions
    } else {
        let mid: usize = from + (to - from) / 2;
        let left = sort_positions(entries, keys, from, mid);
        let right = sort_positions(entries, keys, mid, to);
        merge(entries, keys, &left, &right, from, mid, to)
    }
}

/// The files of a diff in the order in which they are listed: added files first, then modified
/// ones, then deleted ones, and by path within each group.
pub fn sort_diff_entries(tree_diff: &TreeDiff) -> (entries: Vec<DiffEntry>)
    ensures
        is_listing(tree_diff@, seq_view(entries@)),
        seq_view(entries@) == listing(tree_diff@),
{
    proof {
        use_type_invariant(tree_diff);
    }
    let ghost models = seq_view(tree_diff.entries@);
    let mut keys: Vec<Vec<char>> = Vec::new();
    let mut i: usize = 0;
    while i < tree_diff.entries.len()
        invariant
            i <= tree_diff.entries@.len(),
            keys@.len() == i,
            forall|k: int|
                0 <= k < keys@.len() ==> (#[trigger] keys@[k])@ == tree_diff.entries@[k].path@,
        decreases tree_diff.entries@.len() - i,
    {
        keys.push(tree_diff.entries[i].path.chars());
        i = i + 1;
    }
    let positions = sort_positions(&tree_diff.entries, &keys, 0, tree_diff.entries.len());
    let mut entries: Vec<DiffEntry> = Vec::new();
    let mut n: usize = 0;
    while n < positions.len()
        invariant
            n <= positions@.len(),
            positions_cover(positions@, 0, tree_diff.entries@.len() as int),
            entries@.len() == n,
            forall|k: int|
                0 <= k < n ==> #[trigger] entries@[k] == tree_diff.entries@[positions@[k] as int],
        decreases positions@.len() - n,
    {
        entries.push(tree_diff.entries[positions[n]].clone());
        n = n + 1;
    }
    proof {
        let listed = seq_view(entries@);
        assert forall|k: int| 0 <= k < listed.len() implies #[trigger] listed[k]
            == models[positions@[k] as int] by {
            assert(entries@[k] == tree_diff.entries@[positions@[k] as int]);
        }
        assert forall|a: int, b: int|
            #![trigger listed[a], listed[b]]
            0 <= a < b < listed.len() implies entry_less(listed[a], listed[b]) by {
            assert(entry_less(models[positions@[a] as int], models[positions@[b] as int]));
        }
        assert forall|k: int|
            #![trigger listed[k]]
            0 <= k < listed.len() implies tree_diff@.contains_pair(
            listed[k].path,
            listed[k].status,
        ) by {
            lemma_entry_map_at(models, positions@[k] as int);
        }
        assert forall|path: Seq<char>| #[trigger] tree_diff@.dom().contains(path) implies exists|
            i: int,
        |
            0 <= i < listed.len() && (#[trigger] listed[i]).path == path by {
            let m = choose|m: int| 0 <= m < models.len() && (#[trigger] models[m]).path == path;
            assert(positions@.contains(m as usize));
            let k = choose|k: int| 0 <= k < positions@.len() && positions@[k] == m as usize;
            assert(listed[k].path == path);
        }
        assert(is_listing(tree_diff@, listed));
        law_listing_unique(tree_diff@, listed, listing(tree_diff@));
    }
    entries
}

/// Added files come before all others and deleted ones after all others. Two files of one kind,
/// whatever objects they were, are in the order of their paths.
pub proof fn law_entry_order_by_kind(a: EntryModel, b: EntryModel)
    ensures
        a.status is Added && !(b.status is Added) ==> entry_less(a, b) && !entry_less(b, a),
        b.status is Deleted && !(a.status is Deleted) ==> entry_less(a, b) && !entry_less(b, a),
        a.status is Added && b.status is Added ==> entry_less(a, b) == path_less(a.path, b.path),
        a.status is Modified && b.status is Modified ==> entry_less(a, b) == path_less(
            a.path,
            b.path,
        ),
        a.status is Deleted && b.status is Deleted ==> entry_less(a, b) == path_less(
            a.path,
            b.path,
        ),
{
}

/// The groups are numbered: added files, modified ones, deleted ones.
pub proof fn law_rank(status: TreeDiffStatus)
    ensures
        status is Added <==> status.rank() == 0,
        status is Modified <==> status.rank() == 1,
        status is Deleted <==> status.rank() == 2,
{
}

/// The order of listing does not depend on the objects that the files were.
pub proof fn law_entry_order_ignores_objects(
    a: Seq<char>,
    b: Seq<char>,
    x: Oid,
    y: Oid,
    other_x: Oid,
    other_y: Oid,
)
    ensures
        entry_less(
            (EntryModel { path: a, status: TreeDiffStatus::Modified { old: x } }),
            (EntryModel { path: b, status: TreeDiffStatus::Modified { old: y } }),
        ) == entry_less(
            (EntryModel { path: a, status: TreeDiffStatus::Modified { old: other_x } }),
            (EntryModel { path: b, status: TreeDiffStatus::Modified { old: other_y } }),
        ),
        entry_less(
            (EntryModel { path: a, status: TreeDiffStatus::Deleted { old: x } }),
            (EntryModel { path: b, status: TreeDiffStatus::Deleted { old: y } }),
        ) == entry_less(
            (EntryModel { path: a, status: TreeDiffStatus::Deleted { old: other_x } }),
            (EntryModel { path: b, status: TreeDiffStatus::Deleted { old: other_y } }),
        ),
{
}

/// Where an entry belongs among sorted entries of other paths.
proof fn lemma_place_among(entries: Seq<EntryModel>, entry: EntryModel) -> (place: int)
    requires
        is_sorted(entries),
        forall|i: int| 0 <= i < entries.len() ==> (#[trigger] entries[i]).path != entry.path,
    ensures
        0 <= place <= entries.len(),
        forall|i: int| 0 <= i < place ==> entry_less(#[trigger] entries[i], entry),
        forall|i: int| place <= i < entries.len() ==> entry_less(entry, #[trigger] entries[i]),
    decreases entries.len(),
{
    if entries.len() == 0 {
        0
    } else {
        let front = entries.drop_last();
        let last = entries.last();
        assert(entries[entries.len() - 1].path != entry.path);
        if entry_less(entry, last) {
            assert forall|i: int| 0 <= i < front.len() implies (#[trigger] front[i]).path
                != entry.path by {
                assert(front[i] == entries[i]);
            }
            let place = lemma_place_among(front, entry);
            assert forall|i: int| 0 <= i < place implies entry_less(
                #[trigger] entries[i],
                entry,
            ) by {
                assert(front[i] == entries[i]);
            }
            assert forall|i: int| place <= i < entries.len() implies entry_less(
                entry,
                #[trigger] entries[i],
            ) by {
                if i < front.len() {
                    assert(front[i] == entries[i]);
                }
            }
            place
        } else {
            law_entry_order_total(entry, last);
            assert forall|i: int| 0 <= i < entries.len() implies entry_less(
                #[trigger] entries[i],
                entry,
            ) by {
                if i < entries.len() - 1 {
                    assert(entry_less(entries[i], entries[entries.len() - 1]));
                    law_entry_order_transitive(entries[i], last, entry);
                }
            }
            entries.len() as int
        }
    }
}

/// Every diff of finitely many files has a listing.
proof fn lemma_listing_exists(diff: Map<Seq<char>, TreeDiffStatus>) -> (entries: Seq<EntryModel>)
    requires
        diff.dom().finite(),
    ensures
        is_listing(diff, entries),
    decreases diff.dom().len(),
{
    if diff.dom().len() == 0 {
        assert(diff.dom() =~= Set::empty());
        Seq::empty()
    } else {
        let path = diff.dom().choose();
        let rest = diff.remove(path);
        let entry = EntryModel { path, status: diff[path] };
        let others = lemma_listing_exists(rest);
        assert forall|i: int| 0 <= i < others.len() implies (#[trigger] others[i]).path
            != entry.path by {
            assert(rest.contains_pair(others[i].path, others[i].status));
        }
        let place = lemma_place_among(others, entry);
        let entries = others.insert(place, entry);
        assert forall|i: int, j: int|
            #![trigger entries[i], entries[j]]
            0 <= i < j < entries.len() implies entry_less(entries[i], entries[j]) by {
            if i == place {
                assert(entries[j] == others[j - 1]);
            } else if j == place {
                assert(entries[i] == others[i]);
            } else {
                let k = if i < place {
                    i
                } else {
                    i - 1
                };
                let m = if j < place {
                    j
                } else {
                    j - 1
                };
                assert(entries[i] == others[k] && entries[j] == others[m]);
            }
        }
        assert forall|i: int|
            #![trigger entries[i]]
            0 <= i < entries.len() implies diff.contains_pair(
            entries[i].path,
            entries[i].status,
        ) by {
            if i != place {
                let k = if i < place {
                    i
                } else {
                    i - 1
                };
                assert(entries[i] == others[k]);
                assert(rest.contains_pair(others[k].path, others[k].status));
            }
        }
        assert forall|p: Seq<char>| #[trigger] diff.dom().contains(p) implies exists|i: int|
            0 <= i < entries.len() && (#[trigger] entries[i]).path == p by {
            if p == path {
                assert(entries[place].path == p);
            } else {
                assert(rest.dom().contains(p));
                let k = choose|k: int| 0 <= k < others.len() && (#[trigger] others[k]).path == p;
                let i = if k < place {
                    k
                } else {
                    k + 1
                };
                assert(entries[i] == others[k]);
            }
        }
        entries
    }
}

/// The listing of a diff names its files, each once and with what happened to it, and no others.
pub proof fn law_listing_complete(diff: Map<Seq<char>, TreeDiffStatus>)
    requires
        diff.dom().finite(),
    ensures
        is_listing(diff, listing(diff)),
        listing(diff).len() == diff.dom().len(),
        forall|i: int|
            #![trigger listing(diff)[i]]
            0 <= i < listing(diff).len() ==> diff.dom().contains(listing(diff)[i].path)
                && diff[listing(diff)[i].path] == listing(diff)[i].status,
        forall|i: int, j: int|
            #![trigger listing(diff)[i], listing(diff)[j]]
            0 <= i < listing(diff).len() && 0 <= j < listing(diff).len() && i != j ==> listing(
                diff,
            )[i].path != listing(diff)[j].path,
        forall|path: Seq<char>| #[trigger]
            diff.dom().contains(path) ==> exists|i: int|
                0 <= i < listing(diff).len() && (#[trigger] listing(diff)[i]).path == path,
        listing_or_empty(Some(diff)) == listing(diff),
        listing_or_empty(None) == Seq::<EntryModel>::empty(),
{
    let entries = lemma_listing_exists(diff);
    assert(is_listing(diff, entries));
    law_listing_len(diff, listing(diff));
    law_listing_distinct(diff, listing(diff));
    let all = listing(diff);
    assert forall|i: int|
        #![trigger listing(diff)[i]]
        0 <= i < listing(diff).len() implies diff.dom().contains(listing(diff)[i].path)
        && diff[listing(diff)[i].path] == listing(diff)[i].status by {
        assert(diff.contains_pair(all[i].path, all[i].status));
    }
}

/// In a listing the added files stand before the modified ones, and those before the deleted
/// ones. Of two files of one kind, whatever objects they were, the one that is listed first has
/// the path that comes first.
pub proof fn law_listing_order(diff: Map<Seq<char>, TreeDiffStatus>, i: int, j: int)
    requires
        diff.dom().finite(),
        0 <= i < listing(diff).len(),
        0 <= j < listing(diff).len(),
    ensures
        listing(diff)[i].status is Added && !(listing(diff)[j].status is Added) ==> i < j,
        listing(diff)[j].status is Deleted && !(listing(diff)[i].status is Deleted) ==> i < j,
        listing(diff)[i].status is Added && listing(diff)[j].status is Added ==> (i < j)
            == path_less(listing(diff)[i].path, listing(diff)[j].path),
        listing(diff)[i].status is Modified && listing(diff)[j].status is Modified ==> (i < j)
            == path_less(listing(diff)[i].path, listing(diff)[j].path),
        listing(diff)[i].status is Deleted && listing(diff)[j].status is Deleted ==> (i < j)
            == path_less(listing(diff)[i].path, listing(diff)[j].path),
{
    law_listing_complete(diff);
    lemma_order_in_listing(diff, listing(diff), i, j);
}

proof fn lemma_order_in_listing(
    diff: Map<Seq<char>, TreeDiffStatus>,
    entries: Seq<EntryModel>,
    i: int,
    j: int,
)
    requires
        is_listing(diff, entries),
        0 <= i < entries.len(),
        0 <= j < entries.len(),
    ensures
        (i < j) == entry_less(entries[i], entries[j]),
{
    if i < j {
        assert(entry_less(entries[i], entries[j]));
    } else if j < i {
        assert(entry_less(entries[j], entries[i]));
        if entry_less(entries[i], entries[j]) {
            law_entry_order_transitive(entries[i], entries[j], entries[i]);
            law_entry_order_irreflexive(entries[i]);
        }
    } else {
        law_entry_order_irreflexive(entries[i]);
    }
}

/// Two diffs of the same files that treat each alike, whatever objects the files were, are
/// listed in the same order.
pub proof fn law_listing_ignores_objects(
    a: Map<Seq<char>, TreeDiffStatus>,
    b: Map<Seq<char>, TreeDiffStatus>,
    i: int,
)
    requires
        a.dom().finite(),
        a.dom() == b.dom(),
        forall|path: Seq<char>| #[trigger]
            a.dom().contains(path) ==> (a[path] is Added) == (b[path] is Added) && (a[path]
                is Modified) == (b[path] is Modified),
        0 <= i < a.dom().len(),
    ensures
        listing(a)[i].path == listing(b)[i].path,
{
    law_listing_complete(a);
    law_listing_complete(b);
    let ea = listing(a);
    let eb = listing(b);
    let moved = Seq::new(ea.len(), |k: int| EntryModel { path: ea[k].path, status: b[ea[k].path] });
    assert(is_listing(b, moved)) by {
        assert forall|k: int, m: int|
            #![trigger moved[k], moved[m]]
            0 <= k < m < moved.len() implies entry_less(moved[k], moved[m]) by {
            assert(entry_less(ea[k], ea[m]));
            assert(a.dom().contains(ea[k].path) && a.dom().contains(ea[m].path));
        }
        assert forall|k: int|
            #![trigger moved[k]]
            0 <= k < moved.len() implies b.contains_pair(moved[k].path, moved[k].status) by {
            assert(a.dom().contains(ea[k].path));
        }
        assert forall|p: Seq<char>| #[trigger] b.dom().contains(p) implies exists|k: int|
            0 <= k < moved.len() && (#[trigger] moved[k]).path == p by {
            assert(a.dom().contains(p));
            let k = choose|k: int| 0 <= k < ea.len() && (#[trigger] ea[k]).path == p;
            assert(moved[k].path == p);
        }
    }
    law_listing_unique(b, moved, eb);
}

} // verus!
