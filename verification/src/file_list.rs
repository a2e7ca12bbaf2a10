//! The list of files of a diff: what is selected, what was viewed, and what is shown.
use crate::effects::{Context, EffectModel, Entity, FileListEvent, FileListEventModel};
use crate::elements::{Color, IconName, RowFill};
use crate::repo_path::RepoPath;
use crate::text::{append_decimal, decimal, opt_view, seq_view};
use crate::tree_diff::{
    distinct_paths, is_listing, is_sorted, law_listing_distinct, law_listing_unique, listing,
    listing_or_empty, sort_diff_entries, DiffEntry, EntryModel, TreeDiff, TreeDiffStatus,
};
use vstd::hash_set::StringHashSet;
use vstd::prelude::*;

verus! {

/// A list of the files that differ between two branches.
pub struct FileList {
    base_branch: Option<String>,
    head_branch: Option<String>,
    entries: Vec<DiffEntry>,
    viewed_files: StringHashSet,
    selected_entry: Option<usize>,
}

/// A file list: the branches, the files in the order of listing, the paths of the files that were
/// viewed, and the position of the selected file.
#[verifier::ext_equal]
pub struct FileListModel {
    pub base_branch: Option<Seq<char>>,
    pub head_branch: Option<Seq<char>>,
    pub entries: Seq<EntryModel>,
    pub viewed_files: Set<Seq<char>>,
    pub selected_entry: Option<usize>,
}

impl FileListModel {
    /// The files are in order, each is listed once and they can be counted, and what is selected is
    /// one of them.
    pub open spec fn wf(self) -> bool {
        &&& is_sorted(self.entries)
        &&& distinct_paths(self.entries)
        &&& self.entries.len() <= usize::MAX
        &&& self.viewed_files.finite()
        &&& self.selected_entry matches Some(i) ==> i < self.entries.len()
    }

    /// A list of the files of a diff, with nothing viewed and nothing selected.
    pub open spec fn fresh(
        base_branch: Option<Seq<char>>,
        head_branch: Option<Seq<char>>,
        diff: Option<Map<Seq<char>, TreeDiffStatus>>,
    ) -> FileListModel {
        FileListModel {
            base_branch,
            head_branch,
            entries: listing_or_empty(diff),
            viewed_files: Set::empty(),
            selected_entry: None,
        }
    }

    /// Where a path is listed.
    pub open spec fn position(self, path: Seq<char>) -> Option<usize> {
        if exists|i: int| 0 <= i < self.entries.len() && (#[trigger] self.entries[i]).path == path {
            Some(
                (choose|i: int|
                    0 <= i < self.entries.len() && (#[trigger] self.entries[i]).path
                        == path) as usize,
            )
        } else {
            None
        }
    }

    /// The file below the selected one, if there is one; the first file if none is selected.
    pub open spec fn next_position(self) -> Option<usize> {
        match self.selected_entry {
            Some(i) if i + 1 < self.entries.len() => Some((i + 1) as usize),
            None if self.entries.len() > 0 => Some(0),
            _ => None,
        }
    }

    /// The file above the selected one, if there is one; the first file if none is selected.
    pub open spec fn previous_position(self) -> Option<usize> {
        match self.selected_entry {
            Some(i) if i > 0 => Some((i - 1) as usize),
            None if self.entries.len() > 0 => Some(0),
            _ => None,
        }
    }

    /// The list after the selection has moved to a position, or stayed where there is none.
    pub open spec fn moved_to(self, position: Option<usize>) -> FileListModel {
        match position {
            Some(_) => FileListModel { selected_entry: position, ..self },
            None => self,
        }
    }

    /// The list after a file was opened: the file counts as viewed and is selected where it is
    /// listed.
    pub open spec fn opened(self, path: Seq<char>) -> FileListModel {
        FileListModel {
            viewed_files: self.viewed_files.insert(path),
            selected_entry: self.position(path),
            ..self
        }
    }
}

impl View for FileList {
    type V = FileListModel;

    closed spec fn view(&self) -> FileListModel {
        FileListModel {
            base_branch: opt_view(self.base_branch),
            head_branch: opt_view(self.head_branch),
            entries: seq_view(self.entries@),
            viewed_files: self.viewed_files@,
            selected_entry: self.selected_entry,
        }
    }
}

/// What is known of a diff.
pub open spec fn diff_view(diff: Option<&TreeDiff>) -> Option<Map<Seq<char>, TreeDiffStatus>> {
    match diff {
        Some(diff) => Some(diff@),
        None => None,
    }
}

/// What was asked for when the selection moved.
pub open spec fn notified_if(effects: Seq<EffectModel>, changed: bool) -> Seq<EffectModel> {
    if changed {
        effects.push(EffectModel::Notify(Entity::FileList))
    } else {
        effects
    }
}

/// The files of a diff in order, or none where there is no diff.
fn list_entries(diff: Option<&TreeDiff>) -> (entries: Vec<DiffEntry>)
    ensures
        seq_view(entries@) == listing_or_empty(diff_view(diff)),
        is_sorted(seq_view(entries@)),
        distinct_paths(seq_view(entries@)),
        entries@.len() <= usize::MAX,
{
    let entries: Vec<DiffEntry> = match diff {
        Some(diff) => {
            let entries = sort_diff_entries(diff);
            proof {
                law_listing_distinct(diff@, seq_view(entries@));
            }
            entries
        },
        None => {
            let entries: Vec<DiffEntry> = Vec::new();
            assert(seq_view(entries@) =~= Seq::empty());
            entries
        },
    };
    assert(entries.len() <= usize::MAX);
    entries
}

impl FileList {
    /// A list of the files of a diff, with nothing viewed and nothing selected.
    pub fn new(
        base_branch: Option<String>,
        head_branch: Option<String>,
        tree_diff: Option<&TreeDiff>,
        _cx: &mut Context,
    ) -> (list: FileList)
        ensures
            list@.wf(),
            list@ == FileListModel::fresh(
                opt_view(base_branch),
                opt_view(head_branch),
                diff_view(tree_diff),
            ),
            final(_cx)@ == old(_cx)@,
    {
        let entries = list_entries(tree_diff);
        FileList {
            base_branch,
            head_branch,
            entries,
            viewed_files: StringHashSet::new(),
            selected_entry: None,
        }
    }

    /// Shows another diff: nothing of it is viewed or selected yet.
    pub fn set_diff(
        &mut self,
        base: Option<String>,
        head: Option<String>,
        diff: Option<&TreeDiff>,
        cx: &mut Context,
    )
        ensures
            final(self)@.wf(),
            final(self)@ == FileListModel::fresh(
                opt_view(base),
                opt_view(head),
                diff_view(diff),
            ),
            final(cx)@ == old(cx)@.push(EffectModel::Notify(Entity::FileList)),
    {
        self.base_branch = base;
        self.head_branch = head;
        self.entries = list_entries(diff);
        self.viewed_files.clear();
        self.selected_entry = None;
        cx.notify(Entity::FileList);
    }

    /// Counts a file as viewed.
    pub fn mark_viewed(&mut self, path: RepoPath, cx: &mut Context)
        requires
            old(self)@.wf(),
        ensures
            final(self)@.wf(),
            final(self)@ == (FileListModel {
                viewed_files: old(self)@.viewed_files.insert(path@),
                ..old(self)@
            }),
            final(cx)@ == old(cx)@.push(EffectModel::Notify(Entity::FileList)),
    {
        self.viewed_files.insert(path.as_str().to_string());
        cx.notify(Entity::FileList);
    }

    /// Selects the next file. At the last file the selection stays.
    pub fn select_next(&mut self, cx: &mut Context)
        requires
            old(self)@.wf(),
        ensures
            final(self)@.wf(),
            final(self)@ == old(self)@.moved_to(old(self)@.next_position()),
            final(cx)@ == notified_if(old(cx)@, old(self)@.next_position() is Some),
    {
        let count: usize = self.entries.len();
        if count == 0 {
            return;
        }
        let next: usize = match self.selected_entry {
            Some(current) => {
                if current + 1 < count {
                    current + 1
                } else {
                    return;
                }
            },
            None => 0,
        };
        self.selected_entry = Some(next);
        cx.notify(Entity::FileList);
    }

    /// Selects the previous file. At the first file the selection stays.
    pub fn select_previous(&mut self, cx: &mut Context)
        requires
            old(self)@.wf(),
        ensures
            final(self)@.wf(),
            final(self)@ == old(self)@.moved_to(old(self)@.previous_position()),
            final(cx)@ == notified_if(old(cx)@, old(self)@.previous_position() is Some),
    {
        let count: usize = self.entries.len();
        if count == 0 {
            return;
        }
        let prev: usize = match self.selected_entry {
            Some(current) => {
                if current > 0 {
                    current - 1
                } else {
                    return;
                }
            },
            None => 0,
        };
        self.selected_entry = Some(prev);
        cx.notify(Entity::FileList);
    }

    /// Asks for the changes of the selected file.
    pub fn confirm(&mut self, cx: &mut Context)
        requires
            old(self)@.wf(),
        ensures
            final(self)@ == old(self)@,
            final(cx)@ == (match old(self)@.selected_entry {
                Some(i) => old(cx)@.push(
                    EffectModel::Emit(
                        FileListEventModel::OpenFileDiff(old(self)@.entries[i as int].path),
                    ),
                ),
                None => old(cx)@,
            }),
    {
        let selected: usize = match self.selected_entry {
            Some(selected) => selected,
            None => {
                return;
            },
        };
        cx.emit(FileListEvent::OpenFileDiff(self.entries[selected].path.clone()));
    }

    /// Asks for the selected file itself, unless it was deleted.
    pub fn open_local_file(&mut self, cx: &mut Context)
        requires
            old(self)@.wf(),
        ensures
            final(self)@ == old(self)@,
            final(cx)@ == (match old(self)@.selected_entry {
                Some(i) if !(old(self)@.entries[i as int].status is Deleted) => old(cx)@.push(
                    EffectModel::Emit(
                        FileListEventModel::OpenLocalFile(old(self)@.entries[i as int].path),
                    ),
                ),
                _ => old(cx)@,
            }),
    {
        let selected: usize = match self.selected_entry {
            Some(selected) => selected,
            None => {
                return;
            },
        };
        if let TreeDiffStatus::Deleted { .. } = self.entries[selected].status {
            return;
        }
        cx.emit(FileListEvent::OpenLocalFile(self.entries[selected].path.clone()));
    }

    /// Where a path is listed.
    fn find(&self, path: &RepoPath) -> (position: Option<usize>)
        requires
            self@.wf(),
        ensures
            position == self@.position(path@),
            position matches Some(i) ==> i < self@.entries.len(),
    {
        let mut i: usize = 0;
        while i < self.entries.len()
            invariant
                self@.wf(),
                self@.entries == seq_view(self.entries@),
                i <= self.entries@.len(),
                forall|k: int| 0 <= k < i ==> (#[trigger] self@.entries[k]).path != path@,
            decreases self.entries@.len() - i,
        {
            if self.entries[i].path.same(path) {
                proof {
                    law_position_unique(self@, i as int);
                }
                return Some(i);
            }
            assert(self@.entries[i as int].path != path@);
            i = i + 1;
        }
        None
    }

    /// Selects a file by its path. Where the path is not listed nothing is selected afterwards.
    pub fn select_path(&mut self, path: &RepoPath, cx: &mut Context)
        requires
            old(self)@.wf(),
        ensures
            final(self)@.wf(),
            final(self)@ == (FileListModel {
                selected_entry: old(self)@.position(path@),
                ..old(self)@
            }),
            final(cx)@ == old(cx)@.push(EffectModel::Notify(Entity::FileList)),
    {
        self.selected_entry = self.find(path);
        cx.notify(Entity::FileList);
    }

    /// What a click on a file does: the file counts as viewed and is selected, and its changes are
    /// asked for.
    pub fn click_entry(&mut self, path: &RepoPath, cx: &mut Context)
        requires
            old(self)@.wf(),
        ensures
            final(self)@.wf(),
            final(self)@ == old(self)@.opened(path@),
            final(cx)@ == old(cx)@.push(
                EffectModel::Emit(FileListEventModel::OpenFileDiff(path@)),
            ).push(EffectModel::Notify(Entity::FileList)),
    {
        self.viewed_files.insert(path.as_str().to_string());
        self.selected_entry = self.find(path);
        cx.emit(FileListEvent::OpenFileDiff(path.clone()));
        cx.notify(Entity::FileList);
    }
}

/// A row of the file list.
#[derive(Debug, PartialEq, Eq)]
pub struct FileRow {
    /// Tells the row apart from the others.
    pub id: String,
    /// The file, which a click opens.
    pub path: RepoPath,
    pub icon: IconName,
    pub icon_color: Color,
    pub label: String,
    pub label_color: Color,
    /// Whether a dot marks the file as not viewed.
    pub unviewed_dot: bool,
    pub fill: RowFill,
    pub hover_fill: RowFill,
}

/// A row of the file list, its labels as text.
pub struct FileRowModel {
    pub id: Seq<char>,
    pub path: Seq<char>,
    pub icon: IconName,
    pub icon_color: Color,
    pub label: Seq<char>,
    pub label_color: Color,
    pub unviewed_dot: bool,
    pub fill: RowFill,
    pub hover_fill: RowFill,
}

impl View for FileRow {
    type V = FileRowModel;

    open spec fn view(&self) -> FileRowModel {
        FileRowModel {
            id: self.id@,
            path: self.path@,
            icon: self.icon,
            icon_color: self.icon_color,
            label: self.label@,
            label_color: self.label_color,
            unviewed_dot: self.unviewed_dot,
            fill: self.fill,
            hover_fill: self.hover_fill,
        }
    }
}

/// What a file list shows.
#[derive(Debug, PartialEq, Eq)]
pub enum FileListView {
    /// A message in place of the files.
    Message(String),
    /// The branches, a summary and the files.
    Files { header: String, summary: String, rows: Vec<FileRow> },
}

/// What a file list shows, the labels as text.
pub enum FileListViewModel {
    Message(Seq<char>),
    Files { header: Seq<char>, summary: Seq<char>, rows: Seq<FileRowModel> },
}

impl View for FileListView {
    type V = FileListViewModel;

    open spec fn view(&self) -> FileListViewModel {
        match *self {
            FileListView::Message(message) => FileListViewModel::Message(message@),
            FileListView::Files { header, summary, rows } => FileListViewModel::Files {
                header: header@,
                summary: summary@,
                rows: seq_view(rows@),
            },
        }
    }
}

/// Whether something happened to a file that puts it into a group.
pub open spec fn in_group(rank: nat) -> spec_fn(EntryModel) -> bool {
    |entry: EntryModel| entry.status.rank() == rank
}

/// The name of a branch, or a question mark.
pub open spec fn branch_label(branch: Option<Seq<char>>) -> Seq<char> {
    match branch {
        Some(name) => name,
        None => "?"@,
    }
}

impl FileListModel {
    /// How many files are listed in a group.
    pub open spec fn count(self, rank: nat) -> nat {
        self.entries.filter(in_group(rank)).len()
    }

    /// The branches that are compared.
    pub open spec fn header(self) -> Seq<char> {
        branch_label(self.base_branch) + " <- "@ + branch_label(self.head_branch)
    }

    /// How many files differ, in which ways, and how many were viewed.
    pub open spec fn summary(self) -> Seq<char> {
        decimal(self.entries.len()) + " changed files (+"@ + decimal(self.count(0)) + " -"@
            + decimal(self.count(2)) + " ~"@ + decimal(self.count(1)) + ") — "@ + decimal(
            self.viewed_files.len(),
        ) + "/"@ + decimal(self.entries.len()) + " viewed"@
    }

    /// The row of a file.
    pub open spec fn row(self, ix: int) -> FileRowModel {
        let entry = self.entries[ix];
        let viewed = self.viewed_files.contains(entry.path);
        let selected = self.selected_entry matches Some(i) && i == ix;
        FileRowModel {
            id: "file_entry_"@ + decimal(ix as nat),
            path: entry.path,
            icon: match entry.status {
                TreeDiffStatus::Added => IconName::Plus,
                TreeDiffStatus::Modified { .. } => IconName::Pencil,
                TreeDiffStatus::Deleted { .. } => IconName::Dash,
            },
            icon_color: match entry.status {
                TreeDiffStatus::Added => Color::Created,
                TreeDiffStatus::Modified { .. } => Color::Modified,
                TreeDiffStatus::Deleted { .. } => Color::Deleted,
            },
            label: entry.path,
            label_color: if viewed {
                Color::Muted
            } else {
                Color::Default
            },
            unviewed_dot: !viewed,
            fill: if selected {
                RowFill::Selected
            } else {
                RowFill::GhostElement
            },
            hover_fill: if selected {
                RowFill::SelectedHover
            } else {
                RowFill::GhostElementHover
            },
        }
    }

    /// What the list shows.
    pub open spec fn shown(self) -> FileListViewModel {
        if self.entries.len() == 0 {
            FileListViewModel::Message("Loading..."@)
        } else {
            FileListViewModel::Files {
                header: self.header(),
                summary: self.summary(),
                rows: Seq::new(self.entries.len(), |ix: int| self.row(ix)),
            }
        }
    }
}

impl FileList {
    /// How many files are listed in a group.
    fn count_group(&self, order: u8) -> (count: usize)
        ensures
            count == self@.count(order as nat),
            count <= self.entries@.len(),
    {
        let ghost entries = self@.entries;
        let ghost pred = in_group(order as nat);
        let mut count: usize = 0;
        let mut i: usize = 0;
        proof {
            reveal(Seq::filter);
            assert(entries.take(0).filter(pred).len() == 0);
        }
        while i < self.entries.len()
            invariant
                entries == seq_view(self.entries@),
                pred == in_group(order as nat),
                i <= self.entries@.len(),
                count <= i,
                count == entries.take(i as int).filter(pred).len(),
            decreases self.entries@.len() - i,
        {
            proof {
                reveal(Seq::filter);
                assert(entries.take(i + 1).drop_last() =~= entries.take(i as int));
                assert(entries.take(i + 1).last() == entries[i as int]);
                assert(pred(entries[i as int]) == (entries[i as int].status.rank() == order));
            }
            if self.entries[i].status.order() == order {
                count = count + 1;
            }
            i = i + 1;
        }
        assert(entries.take(i as int) =~= entries);
        count
    }

    /// The branches that are compared.
    fn header_text(&self) -> (header: String)
        ensures
            header@ == self@.header(),
    {
        let mut header = String::new();
        match &self.base_branch {
            Some(name) => header.append(name.as_str()),
            None => header.append("?"),
        }
        header.append(" <- ");
        match &self.head_branch {
            Some(name) => header.append(name.as_str()),
            None => header.append("?"),
        }
        assert(header@ =~= self@.header());
        header
    }

    /// How many files differ, in which ways, and how many were viewed.
    fn summary_text(&self) -> (summary: String)
        ensures
            summary@ == self@.summary(),
    {
        let file_count: usize = self.entries.len();
        let added: usize = self.count_group(0);
        let modified: usize = self.count_group(1);
        let deleted: usize = self.count_group(2);
        let viewed_count: usize = self.viewed_files.len();
        let mut summary = String::new();
        append_decimal(&mut summary, file_count as u64);
        summary.append(" changed files (+");
        append_decimal(&mut summary, added as u64);
        summary.append(" -");
        append_decimal(&mut summary, deleted as u64);
        summary.append(" ~");
        append_decimal(&mut summary, modified as u64);
        summary.append(") — ");
        append_decimal(&mut summary, viewed_count as u64);
        summary.append("/");
        append_decimal(&mut summary, file_count as u64);
        summary.append(" viewed");
        assert(summary@ =~= self@.summary());
        summary
    }

    /// The row of a file.
    fn row(&self, ix: usize) -> (row: FileRow)
        requires
            ix < self.entries@.len(),
        ensures
            row@ == self@.row(ix as int),
    {
        let entry = &self.entries[ix];
        let (icon, icon_color) = match entry.status {
            TreeDiffStatus::Added => (IconName::Plus, Color::Created),
            TreeDiffStatus::Modified { .. } => (IconName::Pencil, Color::Modified),
            TreeDiffStatus::Deleted { .. } => (IconName::Dash, Color::Deleted),
        };
        let is_selected: bool = match self.selected_entry {
            Some(selected) => selected == ix,
            None => false,
        };
        let is_viewed: bool = self.viewed_files.contains(entry.path.as_str());
        let mut id = "file_entry_".to_string();
        append_decimal(&mut id, ix as u64);
        FileRow {
            id,
            path: entry.path.clone(),
            icon,
            icon_color,
            label: entry.path.as_str().to_string(),
            label_color: if is_viewed {
                Color::Muted
            } else {
                Color::Default
            },
            unviewed_dot: !is_viewed,
            fill: if is_selected {
                RowFill::Selected
            } else {
                RowFill::GhostElement
            },
            hover_fill: if is_selected {
                RowFill::SelectedHover
            } else {
                RowFill::GhostElementHover
            },
        }
    }

    /// What the list shows.
    pub fn render(&self) -> (view: FileListView)
        ensures
            view@ == self@.shown(),
    {
        if self.entries.len() == 0 {
            return FileListView::Message("Loading...".to_string());
        }
        let header = self.header_text();
        let summary = self.summary_text();
        let mut rows: Vec<FileRow> = Vec::new();
        let mut ix: usize = 0;
        while ix < self.entries.len()
            invariant
                ix <= self.entries@.len(),
                rows@.len() == ix,
                forall|k: int| 0 <= k < ix ==> (#[trigger] rows@[k])@ == self@.row(k),
            decreases self.entries@.len() - ix,
        {
            rows.push(self.row(ix));
            ix = ix + 1;
        }
        let view = FileListView::Files { header, summary, rows };
        assert(seq_view(rows@) =~= Seq::new(self@.entries.len(), |ix: int| self@.row(ix)));
        view
    }
}

/// In a list whose files are in order, a path is listed at one position at most.
pub proof fn law_position_unique(list: FileListModel, i: int)
    requires
        list.wf(),
        0 <= i < list.entries.len(),
    ensures
        list.position(list.entries[i].path) == Some(i as usize),
{
    let path = list.entries[i].path;
    let j = choose|j: int|
        0 <= j < list.entries.len() && (#[trigger] list.entries[j]).path == path;
    assert(list.entries[i].path == path);
    if i < j {
        assert(list.entries[i].path != list.entries[j].path);
    } else if j < i {
        assert(list.entries[j].path != list.entries[i].path);
    }
}

/// Added files are listed before modified ones, and these before deleted ones.
pub proof fn law_groups_in_order(list: FileListModel, i: int, j: int)
    requires
        list.wf(),
        0 <= i <= j < list.entries.len(),
    ensures
        list.entries[i].status.rank() <= list.entries[j].status.rank(),
{
}

proof fn lemma_counts_add_up(entries: Seq<EntryModel>)
    ensures
        entries.filter(in_group(0)).len() + entries.filter(in_group(1)).len() + entries.filter(
            in_group(2),
        ).len() == entries.len(),
    decreases entries.len(),
{
    reveal(Seq::filter);
    if entries.len() > 0 {
        lemma_counts_add_up(entries.drop_last());
        let last = entries.last();
        assert(forall|rank: nat| #[trigger] in_group(rank)(last) == (last.status.rank() == rank));
    }
}

/// Every file that is listed is counted in one group.
pub proof fn law_counts_add_up(list: FileListModel)
    ensures
        list.count(0) + list.count(1) + list.count(2) == list.entries.len(),
{
    lemma_counts_add_up(list.entries);
}

/// After a step down a step up leads back, and the other way round.
pub proof fn law_next_and_previous_undo(list: FileListModel)
    requires
        list.wf(),
        list.selected_entry is Some,
    ensures
        ({
            let next = list.moved_to(list.next_position());
            list.next_position() is Some ==> next.moved_to(next.previous_position()) == list
        }),
        ({
            let previous = list.moved_to(list.previous_position());
            list.previous_position() is Some ==> previous.moved_to(previous.next_position()) == list
        }),
{
}

/// The list after a number of steps down.
pub open spec fn steps_down(list: FileListModel, steps: nat) -> FileListModel
    decreases steps,
{
    if steps == 0 {
        list
    } else {
        let list = steps_down(list, (steps - 1) as nat);
        list.moved_to(list.next_position())
    }
}

/// The list after a number of steps up.
pub open spec fn steps_up(list: FileListModel, steps: nat) -> FileListModel
    decreases steps,
{
    if steps == 0 {
        list
    } else {
        let list = steps_up(list, (steps - 1) as nat);
        list.moved_to(list.previous_position())
    }
}

/// Steps down visit the files one by one, from the first, and then stay at the last.
pub proof fn law_steps_down(list: FileListModel, steps: nat)
    requires
        list.wf(),
        list.entries.len() > 0,
        list.selected_entry is None,
        steps > 0,
    ensures
        steps_down(list, steps) == (FileListModel {
            selected_entry: Some(
                (if steps <= list.entries.len() {
                    steps - 1
                } else {
                    list.entries.len() - 1
                }) as usize,
            ),
            ..list
        }),
    decreases steps,
{
    if steps > 1 {
        law_steps_down(list, (steps - 1) as nat);
    } else {
        assert(steps_down(list, 0) == list);
    }
}

/// Steps up from a selected file visit the files above it one by one, and then stay at the first.
pub proof fn law_steps_up(list: FileListModel, steps: nat)
    requires
        list.wf(),
        list.selected_entry is Some,
    ensures
        steps_up(list, steps) == (FileListModel {
            selected_entry: Some(
                (if steps <= list.selected_entry->0 {
                    list.selected_entry->0 - steps
                } else {
                    0
                }) as usize,
            ),
            ..list
        }),
    decreases steps,
{
    if steps > 0 {
        law_steps_up(list, (steps - 1) as nat);
    }
}

/// A file that was opened is shown as viewed and selected; what is shown of the other files
/// changes in nothing but the selection.
pub proof fn law_opened_is_shown(list: FileListModel, i: int, other: int)
    requires
        list.wf(),
        0 <= i < list.entries.len(),
        0 <= other < list.entries.len(),
        other != i,
    ensures
        ({
            let opened = list.opened(list.entries[i].path);
            &&& opened.wf()
            &&& opened.selected_entry == Some(i as usize)
            &&& !opened.row(i).unviewed_dot
            &&& opened.row(i).label_color == Color::Muted
            &&& opened.row(i).fill == RowFill::Selected
            &&& opened.row(other) == (FileRowModel {
                fill: RowFill::GhostElement,
                hover_fill: RowFill::GhostElementHover,
                ..list.row(other)
            })
        }),
{
    law_position_unique(list, i);
    if i < other {
        assert(list.entries[i].path != list.entries[other].path);
    } else {
        assert(list.entries[other].path != list.entries[i].path);
    }
}

/// To open a file again changes nothing.
pub proof fn law_opened_twice(list: FileListModel, path: Seq<char>)
    ensures
        list.opened(path).opened(path) == list.opened(path),
{
    assert(list.opened(path).opened(path) =~= list.opened(path));
}

/// A new file list shows the one listing that its diff has.
pub proof fn law_fresh_list(
    base_branch: Option<Seq<char>>,
    head_branch: Option<Seq<char>>,
    diff: Map<Seq<char>, TreeDiffStatus>,
    entries: Seq<EntryModel>,
)
    requires
        is_listing(diff, entries),
    ensures
        FileListModel::fresh(base_branch, head_branch, Some(diff)).entries == entries,
{
    law_listing_unique(diff, entries, listing(diff));
}

} // verus!
