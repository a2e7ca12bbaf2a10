//! What a file list promises: what it counts, what it shows, and how the selection moves.
use crate::effects::{EffectModel, Entity};
use crate::elements::{Color, IconName, RowFill};
use crate::file_list::{
    branch_label, diff_view, in_group, notified_if, FileListModel, FileListView,
    FileListViewModel, FileRow, FileRowModel,
};
use crate::repo_path::path_less;
use crate::text::{decimal, seq_view};
use crate::tree_diff::{
    entry_less, law_listing_complete, listing, DiffEntry, EntryModel, TreeDiff, TreeDiffStatus,
};
use vstd::prelude::*;

verus! {

/// The positions of the entries of which something holds.
pub open spec fn positions_where(
    entries: Seq<EntryModel>,
    holds: spec_fn(EntryModel) -> bool,
) -> Set<int> {
    Set::new(|i: int| 0 <= i < entries.len() && holds(entries[i]))
}

proof fn lemma_filter_counts(entries: Seq<EntryModel>, holds: spec_fn(EntryModel) -> bool)
    ensures
        positions_where(entries, holds).finite(),
        positions_where(entries, holds).len() == entries.filter(holds).len(),
    decreases entries.len(),
{
    reveal(Seq::filter);
    let all = positions_where(entries, holds);
    if entries.len() == 0 {
        assert(all =~= Set::empty());
    } else {
        let front = entries.drop_last();
        let last = entries.len() - 1;
        lemma_filter_counts(front, holds);
        let others = positions_where(front, holds);
        if holds(entries.last()) {
            assert(all =~= others.insert(last));
        } else {
            assert(all =~= others);
        }
    }
}

proof fn lemma_counts(list: FileListModel)
    ensures
        list.count(0) == positions_where(
            list.entries,
            |entry: EntryModel| entry.status is Added,
        ).len(),
        list.count(1) == positions_where(
            list.entries,
            |entry: EntryModel| entry.status is Modified,
        ).len(),
        list.count(2) == positions_where(
            list.entries,
            |entry: EntryModel| entry.status is Deleted,
        ).len(),
{
    lemma_filter_counts(list.entries, in_group(0));
    lemma_filter_counts(list.entries, in_group(1));
    lemma_filter_counts(list.entries, in_group(2));
    assert(positions_where(list.entries, in_group(0)) =~= positions_where(
        list.entries,
        |entry: EntryModel| entry.status is Added,
    ));
    assert(positions_where(list.entries, in_group(1)) =~= positions_where(
        list.entries,
        |entry: EntryModel| entry.status is Modified,
    ));
    assert(positions_where(list.entries, in_group(2)) =~= positions_where(
        list.entries,
        |entry: EntryModel| entry.status is Deleted,
    ));
}

/// The summary says how many files differ, behind `+` how many of them were added, behind `-` how
/// many were deleted, behind `~` how many were modified, and then how many were viewed of how
/// many.
pub proof fn law_summary_counts(list: FileListModel)
    ensures
        list.summary() == decimal(list.entries.len()) + " changed files (+"@ + decimal(
            positions_where(list.entries, |entry: EntryModel| entry.status is Added).len(),
        ) + " -"@ + decimal(
            positions_where(list.entries, |entry: EntryModel| entry.status is Deleted).len(),
        ) + " ~"@ + decimal(
            positions_where(list.entries, |entry: EntryModel| entry.status is Modified).len(),
        ) + ") — "@ + decimal(list.viewed_files.len()) + "/"@ + decimal(list.entries.len())
            + " viewed"@,
{
    lemma_counts(list);
}

/// The summary does not depend on the branches, on the selection, or on the order in which the
/// files are listed.
pub proof fn law_summary_of_same_files(a: FileListModel, b: FileListModel)
    requires
        a.entries.to_multiset() == b.entries.to_multiset(),
        a.viewed_files == b.viewed_files,
    ensures
        a.summary() == b.summary(),
{
    a.entries.to_multiset_ensures();
    b.entries.to_multiset_ensures();
    assert(a.entries.len() == b.entries.len());
    assert forall|rank: nat| #[trigger] a.count(rank) == b.count(rank) by {
        lemma_filter_of_multiset(a.entries, in_group(rank));
        lemma_filter_of_multiset(b.entries, in_group(rank));
    }
    assert(a.count(0) == b.count(0) && a.count(1) == b.count(1) && a.count(2) == b.count(2));
}

proof fn lemma_filter_of_multiset(entries: Seq<EntryModel>, holds: spec_fn(EntryModel) -> bool)
    ensures
        entries.filter(holds).len() == entries.to_multiset().filter(holds).len(),
    decreases entries.len(),
{
    reveal(Seq::filter);
    entries.to_multiset_ensures();
    if entries.len() == 0 {
        assert(entries.to_multiset().len() == 0);
        assert(entries.to_multiset() =~= vstd::multiset::Multiset::empty());
        assert(entries.to_multiset().filter(holds) =~= vstd::multiset::Multiset::empty());
    } else {
        let front = entries.drop_last();
        let last = entries.last();
        lemma_filter_of_multiset(front, holds);
        front.to_multiset_ensures();
        assert(entries =~= front.push(last));
        assert(entries.to_multiset() == front.to_multiset().insert(last));
        if holds(last) {
            assert(entries.to_multiset().filter(holds) =~= front.to_multiset().filter(
                holds,
            ).insert(last));
        } else {
            assert(entries.to_multiset().filter(holds) =~= front.to_multiset().filter(holds));
        }
    }
}

/// One file more that was viewed counts once, and no other number of the summary changes.
pub proof fn law_summary_after_open(list: FileListModel, path: Seq<char>)
    requires
        list.viewed_files.finite(),
        !list.viewed_files.contains(path),
    ensures
        list.opened(path).summary() == decimal(list.entries.len()) + " changed files (+"@ + decimal(
            positions_where(list.entries, |entry: EntryModel| entry.status is Added).len(),
        ) + " -"@ + decimal(
            positions_where(list.entries, |entry: EntryModel| entry.status is Deleted).len(),
        ) + " ~"@ + decimal(
            positions_where(list.entries, |entry: EntryModel| entry.status is Modified).len(),
        ) + ") — "@ + decimal(list.viewed_files.len() + 1) + "/"@ + decimal(list.entries.len())
            + " viewed"@,
{
    law_summary_counts(list.opened(path));
}

/// The header names the base and then the head, and has a question mark for a branch that is not
/// known.
pub proof fn law_header_names_branches(list: FileListModel)
    ensures
        list.base_branch matches Some(base) ==> (list.head_branch matches Some(head)
            ==> list.header() == base + " <- "@ + head),
        list.base_branch matches Some(base) ==> (list.head_branch is None ==> list.header() == base
            + " <- "@ + "?"@),
        list.base_branch is None ==> (list.head_branch matches Some(head) ==> list.header() == "?"@
            + " <- "@ + head),
        list.base_branch is None && list.head_branch is None ==> list.header() == "?"@ + " <- "@
            + "?"@,
{
}

/// A row shows the path of its file, and by its icon and color what happened to the file, whatever
/// object the file was.
pub proof fn law_row_shows_file(list: FileListModel, ix: int)
    requires
        0 <= ix < list.entries.len(),
    ensures
        list.row(ix).id == "file_entry_"@ + decimal(ix as nat),
        list.row(ix).path == list.entries[ix].path,
        list.row(ix).label == list.entries[ix].path,
        list.entries[ix].status is Added <==> list.row(ix).icon == IconName::Plus,
        list.entries[ix].status is Modified <==> list.row(ix).icon == IconName::Pencil,
        list.entries[ix].status is Deleted <==> list.row(ix).icon == IconName::Dash,
        list.entries[ix].status is Added <==> list.row(ix).icon_color == Color::Created,
        list.entries[ix].status is Modified <==> list.row(ix).icon_color == Color::Modified,
        list.entries[ix].status is Deleted <==> list.row(ix).icon_color == Color::Deleted,
{
}

/// A row has a dot and a plain label until its file was viewed, and a muted label afterwards,
/// whether the file is selected or not.
pub proof fn law_row_shows_viewed(list: FileListModel, ix: int)
    requires
        0 <= ix < list.entries.len(),
    ensures
        list.row(ix).unviewed_dot <==> !list.viewed_files.contains(list.entries[ix].path),
        list.viewed_files.contains(list.entries[ix].path) ==> list.row(ix).label_color
            == Color::Muted,
        !list.viewed_files.contains(list.entries[ix].path) ==> list.row(ix).label_color
            == Color::Default,
{
}

/// The row of the selected file, and no other, has the fill of a selected row.
pub proof fn law_row_shows_selection(list: FileListModel, ix: int)
    requires
        list.wf(),
        0 <= ix < list.entries.len(),
    ensures
        list.selected_entry == Some(ix as usize) ==> list.row(ix).fill == RowFill::Selected
            && list.row(ix).hover_fill == RowFill::SelectedHover,
        list.selected_entry != Some(ix as usize) ==> list.row(ix).fill == RowFill::GhostElement
            && list.row(ix).hover_fill == RowFill::GhostElementHover,
{
}

/// A list without files says that it is loading; any other shows its header, its summary and one
/// row for each file, in the order of listing.
pub proof fn law_list_shows(list: FileListModel)
    ensures
        list.entries.len() == 0 ==> list.shown() == FileListViewModel::Message("Loading..."@),
        list.entries.len() > 0 ==> (list.shown() matches FileListViewModel::Files {
            header,
            summary,
            rows,
        } && header == list.header() && summary == list.summary() && rows.len()
            == list.entries.len() && (forall|ix: int|
            0 <= ix < rows.len() ==> #[trigger] rows[ix] == list.row(ix))),
{
}

/// A step down selects the next file, the first one if none is selected. It changes nothing else,
/// and nothing at all in an empty list or at the last file; a change and only a change is notified.
pub proof fn law_step_down(list: FileListModel, effects: Seq<EffectModel>)
    requires
        list.wf(),
    ensures
        ({
            let next = list.moved_to(list.next_position());
            let told = notified_if(effects, list.next_position() is Some);
            let notified = effects.push(EffectModel::Notify(Entity::FileList));
            &&& list.entries.len() == 0 ==> next == list && told == effects
            &&& list.entries.len() > 0 && list.selected_entry is None ==> next == (FileListModel {
                selected_entry: Some(0),
                ..list
            }) && told == notified
            &&& list.selected_entry matches Some(i) ==> (if i == list.entries.len() - 1 {
                next == list && told == effects
            } else {
                next == (FileListModel { selected_entry: Some((i + 1) as usize), ..list }) && told
                    == notified
            })
        }),
{
}

/// A step up selects the file before, the first one if none is selected. It changes nothing else,
/// and nothing at all in an empty list or at the first file; a change and only a change is
/// notified.
pub proof fn law_step_up(list: FileListModel, effects: Seq<EffectModel>)
    requires
        list.wf(),
    ensures
        ({
            let previous = list.moved_to(list.previous_position());
            let told = notified_if(effects, list.previous_position() is Some);
            let notified = effects.push(EffectModel::Notify(Entity::FileList));
            &&& list.entries.len() == 0 ==> previous == list && told == effects
            &&& list.entries.len() > 0 && list.selected_entry is None ==> previous == (
            FileListModel { selected_entry: Some(0), ..list }) && told == notified
            &&& list.selected_entry matches Some(i) ==> (if i == 0 {
                previous == list && told == effects
            } else {
                previous == (FileListModel { selected_entry: Some((i - 1) as usize), ..list })
                    && told == notified
            })
        }),
{
}

/// A path has a position where it is listed and only there, the one at which it is listed.
pub proof fn law_position_of_path(list: FileListModel, path: Seq<char>)
    requires
        list.wf(),
    ensures
        list.position(path) matches Some(i) ==> i < list.entries.len()
            && list.entries[i as int].path == path,
        list.position(path) is None ==> forall|i: int|
            0 <= i < list.entries.len() ==> (#[trigger] list.entries[i]).path != path,
{
}

/// To open a file adds its path to those that were viewed, selects it where it is listed, selects
/// nothing where it is not, and changes nothing else.
pub proof fn law_opened_changes(list: FileListModel, path: Seq<char>)
    requires
        list.wf(),
    ensures
        list.opened(path).wf(),
        list.opened(path).base_branch == list.base_branch,
        list.opened(path).head_branch == list.head_branch,
        list.opened(path).entries == list.entries,
        forall|other: Seq<char>|
            list.opened(path).viewed_files.contains(other) <==> other == path
                || list.viewed_files.contains(other),
        forall|i: int|
            0 <= i < list.entries.len() && (#[trigger] list.entries[i]).path == path
                ==> list.opened(path).selected_entry == Some(i as usize),
        (forall|i: int| 0 <= i < list.entries.len() ==> (#[trigger] list.entries[i]).path != path)
            ==> list.opened(path).selected_entry is None,
{
    assert forall|i: int|
        0 <= i < list.entries.len() && (#[trigger] list.entries[i]).path
            == path implies list.opened(path).selected_entry == Some(i as usize) by {
        crate::file_list::law_position_unique(list, i);
    }
}

/// A new list names the branches that it was given, lists the files of the diff, and has nothing
/// viewed and nothing selected. Without a diff it is empty.
pub proof fn law_fresh_shows_diff(
    base: Option<Seq<char>>,
    head: Option<Seq<char>>,
    diff: Map<Seq<char>, TreeDiffStatus>,
)
    requires
        diff.dom().finite(),
    ensures
        FileListModel::fresh(base, head, Some(diff)) == (FileListModel {
            base_branch: base,
            head_branch: head,
            entries: listing(diff),
            viewed_files: Set::empty(),
            selected_entry: None,
        }),
        FileListModel::fresh(base, head, Some(diff)).entries.len() == diff.dom().len(),
        FileListModel::fresh(base, head, None) == (FileListModel {
            base_branch: base,
            head_branch: head,
            entries: Seq::empty(),
            viewed_files: Set::empty(),
            selected_entry: None,
        }),
        forall|path: Seq<char>| #[trigger]
            diff.dom().contains(path) <==> exists|i: int|
                0 <= i < diff.dom().len() && (#[trigger] FileListModel::fresh(
                    base,
                    head,
                    Some(diff),
                ).entries[i]) == (EntryModel { path, status: diff[path] }),
{
    law_listing_complete(diff);
    let list = FileListModel::fresh(base, head, Some(diff));
    assert forall|path: Seq<char>| #[trigger]
        diff.dom().contains(path) <==> exists|i: int|
            0 <= i < diff.dom().len() && (#[trigger] list.entries[i]) == (EntryModel {
                path,
                status: diff[path],
            }) by {
        if diff.dom().contains(path) {
            let i = choose|i: int|
                0 <= i < listing(diff).len() && (#[trigger] listing(diff)[i]).path == path;
            assert(list.entries[i] == (EntryModel { path, status: diff[path] }));
        }
        if exists|i: int|
            0 <= i < diff.dom().len() && (#[trigger] list.entries[i]) == (EntryModel {
                path,
                status: diff[path],
            }) {
            let i = choose|i: int|
                0 <= i < diff.dom().len() && (#[trigger] list.entries[i]) == (EntryModel {
                    path,
                    status: diff[path],
                });
            assert(diff.dom().contains(listing(diff)[i].path));
        }
    }
}

/// A list is valid where its files are in order, no path occurs twice, they can be counted, the
/// viewed ones too, and what is selected is listed.
pub proof fn law_list_valid(list: FileListModel)
    ensures
        list.wf() <==> {
            &&& forall|i: int, j: int|
                #![trigger list.entries[i], list.entries[j]]
                0 <= i < j < list.entries.len() ==> entry_less(list.entries[i], list.entries[j])
                    && list.entries[i].path != list.entries[j].path
            &&& list.entries.len() <= usize::MAX
            &&& list.viewed_files.finite()
            &&& list.selected_entry is Some ==> list.selected_entry->0 < list.entries.len()
        },
{
}

/// In a valid list the added files stand before the modified ones, and those before the deleted
/// ones; files of one kind are in the order of their paths.
pub proof fn law_list_order(list: FileListModel, i: int, j: int)
    requires
        list.wf(),
        0 <= i < j < list.entries.len(),
    ensures
        list.entries[j].status is Added ==> list.entries[i].status is Added,
        list.entries[i].status is Deleted ==> list.entries[j].status is Deleted,
        list.entries[i].status is Added && list.entries[j].status is Added ==> path_less(
            list.entries[i].path,
            list.entries[j].path,
        ),
        list.entries[i].status is Modified && list.entries[j].status is Modified ==> path_less(
            list.entries[i].path,
            list.entries[j].path,
        ),
        list.entries[i].status is Deleted && list.entries[j].status is Deleted ==> path_less(
            list.entries[i].path,
            list.entries[j].path,
        ),
{
}

/// The name of a branch stands for the branch, and a question mark for one that is not known.
pub proof fn law_branch_label(name: Seq<char>)
    ensures
        branch_label(Some(name)) == name,
        branch_label(None) == "?"@,
{
}

/// What a file is, what a row shows and what a list shows are read off field by field.
pub proof fn law_list_views(entry: DiffEntry, diff: TreeDiff, row: FileRow, view: FileListView)
    ensures
        entry@.path == entry.path@ && entry@.status == entry.status,
        diff_view(Some(&diff)) == Some(diff@),
        diff_view(None) is None,
        row@ == (FileRowModel {
            id: row.id@,
            path: row.path@,
            icon: row.icon,
            icon_color: row.icon_color,
            label: row.label@,
            label_color: row.label_color,
            unviewed_dot: row.unviewed_dot,
            fill: row.fill,
            hover_fill: row.hover_fill,
        }),
        view matches FileListView::Message(message) ==> view@ == FileListViewModel::Message(
            message@,
        ),
        view matches FileListView::Files { header, summary, rows } ==> view@ == (
        FileListViewModel::Files { header: header@, summary: summary@, rows: seq_view(rows@) }),
{
}

} // verus!
