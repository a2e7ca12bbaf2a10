//! The panel as a mathematical value: what it holds, and how each event changes it.
use crate::effects::{
    DiffTreeTypeModel, EffectModel, Entity, FileListEventModel, ProjectPathModel, ProviderId,
    PullRequestModel, PullRequestSourceModel, RepositoryId,
};
use crate::elements::{
    ActionButtonModel, IconName, MenuActionModel, MenuButtonModel, MenuItemModel,
};
use crate::file_list::{FileListModel, FileListViewModel};
use crate::github_remote::github_remote;
use crate::recent_reviews::{is_recent_list, recent_menu, recorded, RecentReviewModel};
use crate::text::decimal;
use crate::tree_diff::TreeDiffStatus;
use vstd::prelude::*;

verus! {

/// What the panel shows below its toolbar.
#[derive(Clone, Copy, Debug, PartialEq, Eq)]
pub enum ActiveView {
    Empty,
    PullRequestList,
    ReviewThread,
    FileList,
    Configuration,
}

/// What waits for the next time the panel is drawn.
pub enum PendingActionModel {
    OpenDiff(Seq<char>),
    OpenLocal(Seq<char>),
    SelectPullRequest(PullRequestModel),
}

/// The view of a pull request: where its comments come from, and the pull request.
pub struct ReviewViewModel {
    pub source: PullRequestSourceModel,
    pub pull_request: PullRequestModel,
}

/// The panel.
pub struct ReviewPanelModel {
    pub active_repository: Option<RepositoryId>,
    pub base_branch: Option<Seq<char>>,
    pub head_branch: Option<Seq<char>>,
    pub tree_diff: Option<Map<Seq<char>, TreeDiffStatus>>,
    pub file_list: Option<FileListModel>,
    pub review_view: Option<ReviewViewModel>,
    pub active_view: ActiveView,
    pub recent_reviews: Seq<RecentReviewModel>,
    pub pull_request_list: Option<PullRequestSourceModel>,
    pub provider: Option<ProviderId>,
    pub remote_owner: Option<Seq<char>>,
    pub remote_repo: Option<Seq<char>>,
    pub selected_pr: Option<PullRequestModel>,
    pub pr_ref_fetch_task: Option<u64>,
    pub pending_action: Option<PendingActionModel>,
}

/// The panel after an event, and what the event made it ask for.
pub struct Step {
    pub panel: ReviewPanelModel,
    pub effects: Seq<EffectModel>,
}

impl Step {
    /// This step and the effects of one more thing to do.
    pub open spec fn and(self, effect: EffectModel) -> Step {
        Step { effects: self.effects.push(effect), ..self }
    }

    /// This step, and a second one that begins where this one ends.
    pub open spec fn followed_by(self, next: Step) -> Step {
        Step { panel: next.panel, effects: self.effects + next.effects }
    }
}

/// What happens to the repositories of the project.
pub enum GitStoreEventModel {
    ActiveRepositoryChanged {
        active_repository: Option<RepositoryId>,
        remote_url: Option<Seq<char>>,
    },
    BranchChanged,
    RepositoryUpdated { remote_url: Option<Seq<char>> },
    Other,
}

/// A branch of a repository.
pub struct BranchModel {
    pub ref_name: Seq<char>,
    pub is_head: bool,
}

/// The name of the first branch that is checked out.
pub open spec fn head_of(branches: Seq<BranchModel>) -> Option<Seq<char>>
    decreases branches.len(),
{
    if branches.len() == 0 {
        None
    } else if branches[0].is_head {
        Some(branches[0].ref_name)
    } else {
        head_of(branches.drop_first())
    }
}

/// The arguments with which git fetches the head of a pull request.
pub open spec fn fetch_args(pr_number: u32) -> Seq<Seq<char>> {
    seq!["fetch"@, "origin"@, "pull/"@ + decimal(pr_number as nat) + "/head"@]
}

/// The number of the fetch that follows the last one.
pub open spec fn next_task(last: Option<u64>) -> u64 {
    match last {
        Some(n) if n < u64::MAX => (n + 1) as u64,
        _ => 0,
    }
}

/// What the user does in the file list.
pub enum FileListActionModel {
    SelectNext,
    SelectPrevious,
    Confirm,
    OpenLocalFile,
    Click(Seq<char>),
}

/// The file list after the user has done something in it.
pub open spec fn acted(list: FileListModel, action: FileListActionModel) -> FileListModel {
    match action {
        FileListActionModel::SelectNext => list.moved_to(list.next_position()),
        FileListActionModel::SelectPrevious => list.moved_to(list.previous_position()),
        FileListActionModel::Confirm => list,
        FileListActionModel::OpenLocalFile => list,
        FileListActionModel::Click(path) => list.opened(path),
    }
}

/// What is asked for when the user has done something in the file list.
pub open spec fn action_effects(list: FileListModel, action: FileListActionModel) -> Seq<
    EffectModel,
> {
    let notify = EffectModel::Notify(Entity::FileList);
    match action {
        FileListActionModel::SelectNext => if list.next_position() is Some {
            seq![notify]
        } else {
            seq![]
        },
        FileListActionModel::SelectPrevious => if list.previous_position() is Some {
            seq![notify]
        } else {
            seq![]
        },
        FileListActionModel::Confirm => match list.selected_entry {
            Some(i) => seq![
                EffectModel::Emit(FileListEventModel::OpenFileDiff(list.entries[i as int].path)),
            ],
            None => seq![],
        },
        FileListActionModel::OpenLocalFile => match list.selected_entry {
            Some(i) if !(list.entries[i as int].status is Deleted) => seq![
                EffectModel::Emit(FileListEventModel::OpenLocalFile(list.entries[i as int].path)),
            ],
            _ => seq![],
        },
        FileListActionModel::Click(path) => seq![
            EffectModel::Emit(FileListEventModel::OpenFileDiff(path)),
            notify,
        ],
    }
}

impl ReviewPanelModel {
    /// The file list is in order, the reviews that were opened lately are few and all different, a
    /// list that is shown exists, and the owner and the repository of the remote are known
    /// together.
    pub open spec fn wf(self) -> bool {
        &&& self.file_list matches Some(list) ==> list.wf()
        &&& is_recent_list(self.recent_reviews)
        &&& self.active_view is FileList ==> self.file_list is Some
        &&& self.active_view is PullRequestList ==> self.pull_request_list is Some
        &&& (self.remote_owner is Some) == (self.remote_repo is Some)
    }

    /// A panel that has seen nothing but the repository.
    pub open spec fn blank(active_repository: Option<RepositoryId>) -> ReviewPanelModel {
        ReviewPanelModel {
            active_repository,
            base_branch: None,
            head_branch: None,
            tree_diff: None,
            file_list: None,
            review_view: None,
            active_view: ActiveView::Empty,
            recent_reviews: Seq::empty(),
            pull_request_list: None,
            provider: None,
            remote_owner: None,
            remote_repo: None,
            selected_pr: None,
            pr_ref_fetch_task: None,
            pending_action: None,
        }
    }

    /// Nothing changes and nothing is asked for.
    pub open spec fn still(self) -> Step {
        Step { panel: self, effects: Seq::empty() }
    }

    /// Where pull requests come from.
    pub open spec fn source(self) -> PullRequestSourceModel {
        PullRequestSourceModel {
            provider: self.provider,
            owner: self.remote_owner,
            repo: self.remote_repo,
        }
    }

    /// A new panel asks for a provider and for the branches of the repository.
    pub open spec fn created(
        active_repository: Option<RepositoryId>,
        remote_url: Option<Seq<char>>,
    ) -> Step {
        let initialized = Self::blank(active_repository).provider_initialized(remote_url);
        initialized.followed_by(initialized.panel.branches_requested())
    }

    /// Another repository is open: a provider and the branches are asked for anew.
    pub open spec fn repository_changed(
        self,
        active_repository: Option<RepositoryId>,
        remote_url: Option<Seq<char>>,
    ) -> Step {
        let changed = ReviewPanelModel { active_repository, ..self };
        let initialized = changed.provider_initialized(remote_url);
        initialized.followed_by(initialized.panel.branches_requested()).and(
            EffectModel::Notify(Entity::Panel),
        )
    }

    /// What the panel makes of an event of the git store.
    pub open spec fn git_store_changed(self, event: GitStoreEventModel) -> Step {
        match event {
            GitStoreEventModel::ActiveRepositoryChanged { active_repository, remote_url } =>
                self.repository_changed(active_repository, remote_url),
            GitStoreEventModel::BranchChanged => self.branches_requested(),
            GitStoreEventModel::RepositoryUpdated { remote_url } => if self.provider is None {
                self.provider_initialized(remote_url)
            } else {
                self.still()
            },
            GitStoreEventModel::Other => self.still(),
        }
    }

    /// A provider is asked for where a repository is open whose remote is on GitHub.
    pub open spec fn provider_initialized(self, remote_url: Option<Seq<char>>) -> Step {
        match (self.active_repository, remote_url) {
            (Some(_), Some(url)) => match github_remote(url) {
                Some((owner, repo)) => Step {
                    panel: ReviewPanelModel {
                        remote_owner: Some(owner),
                        remote_repo: Some(repo),
                        ..self
                    },
                    effects: seq![EffectModel::ResolveProvider],
                },
                None => self.still(),
            },
            _ => self.still(),
        }
    }

    /// The provider is kept, and handed to the list of pull requests where there is one.
    pub open spec fn provider_resolved(self, provider: ProviderId) -> Step {
        let panel = ReviewPanelModel { provider: Some(provider), ..self };
        match (self.pull_request_list, self.remote_owner, self.remote_repo) {
            (Some(_), Some(owner), Some(repo)) => Step {
                panel: ReviewPanelModel { pull_request_list: Some(panel.source()), ..panel },
                effects: seq![
                    EffectModel::SetProvider { provider, owner, repo },
                    EffectModel::Notify(Entity::Panel),
                ],
            },
            _ => panel.still().and(EffectModel::Notify(Entity::Panel)),
        }
    }

    /// The branches of the repository are asked for.
    pub open spec fn branches_requested(self) -> Step {
        match self.active_repository {
            Some(repository) => self.still().and(
                EffectModel::LoadBranches { repository, include_remote_name: false },
            ),
            None => self.still(),
        }
    }

    /// The diff of the two branches is asked for, once all that it takes is known.
    pub open spec fn diff_requested(self) -> Step {
        match (self.active_repository, self.base_branch, self.head_branch) {
            (Some(repository), Some(base), Some(head)) => self.still().and(
                EffectModel::LoadDiff {
                    repository,
                    diff_type: DiffTreeTypeModel::MergeBase { base, head },
                },
            ),
            _ => self.still(),
        }
    }

    /// The default branch is the base.
    pub open spec fn default_branch_found(self, default_branch: Seq<char>) -> Step {
        ReviewPanelModel { base_branch: Some(default_branch), ..self }.still().and(
            EffectModel::Notify(Entity::Panel),
        )
    }

    /// The branch that is checked out is the head; where there is none nothing changes.
    pub open spec fn branches_found(self, branches: Seq<BranchModel>) -> Step {
        match head_of(branches) {
            Some(head) => ReviewPanelModel {
                head_branch: Some(head),
                ..self
            }.diff_requested().and(EffectModel::Notify(Entity::Panel)),
            None => self.still(),
        }
    }

    /// The reviews opened lately once a diff of some files was loaded.
    pub open spec fn reviews_after(self, file_count: usize) -> Seq<RecentReviewModel> {
        match (self.base_branch, self.head_branch) {
            (Some(base_branch), Some(head_branch)) => recorded(
                self.recent_reviews,
                RecentReviewModel {
                    base_branch,
                    head_branch,
                    file_count,
                    pull_request: self.selected_pr,
                },
            ),
            _ => self.recent_reviews,
        }
    }

    /// The files of the diff are shown, in a new list.
    pub open spec fn file_list_shown(self) -> Step {
        ReviewPanelModel {
            file_list: Some(
                FileListModel::fresh(self.base_branch, self.head_branch, self.tree_diff),
            ),
            active_view: ActiveView::FileList,
            ..self
        }.still().and(EffectModel::CreateFileList).and(EffectModel::Notify(Entity::Panel))
    }

    /// A diff is kept and the review remembered; the view of the pull request gets the diff, and
    /// outside of that view the files are shown if there are any.
    pub open spec fn diff_loaded(self, diff: Map<Seq<char>, TreeDiffStatus>) -> Step {
        let panel = ReviewPanelModel {
            tree_diff: Some(diff),
            recent_reviews: self.reviews_after(diff.dom().len() as usize),
            ..self
        };
        let handed_on = if self.review_view is Some {
            panel.still().and(EffectModel::SetReviewTreeDiff)
        } else {
            panel.still()
        };
        if !(self.active_view is ReviewThread) && diff.dom().len() > 0 {
            handed_on.followed_by(panel.file_list_shown())
        } else {
            handed_on
        }
    }

    /// The head of a pull request is fetched, in place of the one that may still be on its way.
    pub open spec fn ref_requested(self, pr_number: u32) -> Step {
        let task = next_task(self.pr_ref_fetch_task);
        match self.active_repository {
            Some(repository) => ReviewPanelModel {
                pr_ref_fetch_task: Some(task),
                ..self
            }.still().and(
                EffectModel::FetchPullRequestRef {
                    repository,
                    task,
                    pr_number,
                    program: "git"@,
                    args: fetch_args(pr_number),
                },
            ),
            None => self.still(),
        }
    }

    /// The end of the last fetch leads to the diff, if git has run at all; that of a fetch that
    /// was given up leads to nothing.
    pub open spec fn ref_fetched(self, task: u64, git_has_run: bool) -> Step {
        if git_has_run && self.pr_ref_fetch_task == Some(task) {
            self.diff_requested()
        } else {
            self.still()
        }
    }

    /// A pull request is opened: its branches are compared and its head is fetched, and its view
    /// is made when the panel is drawn.
    pub open spec fn pull_request_selected(self, pr: PullRequestModel) -> Step {
        ReviewPanelModel {
            selected_pr: Some(pr),
            base_branch: Some(pr.base_ref),
            head_branch: Some(pr.head_ref),
            pending_action: Some(PendingActionModel::SelectPullRequest(pr)),
            active_view: ActiveView::ReviewThread,
            ..self
        }.ref_requested(pr.number).and(EffectModel::Notify(Entity::Panel))
    }

    /// The list of pull requests is shown; it is made the first time.
    pub open spec fn pull_request_list_shown(self) -> Step {
        let made = if self.pull_request_list is None {
            ReviewPanelModel { pull_request_list: Some(self.source()), ..self }.still().and(
                EffectModel::CreatePullRequestList { source: self.source() },
            )
        } else {
            self.still()
        };
        Step {
            panel: ReviewPanelModel { active_view: ActiveView::PullRequestList, ..made.panel },
            effects: made.effects,
        }.and(EffectModel::LoadPullRequestsIfEmpty).and(EffectModel::Notify(Entity::Panel))
    }

    /// The list of pull requests is loaded anew, where there is one.
    pub open spec fn pull_requests_refreshed(self) -> Step {
        if self.pull_request_list is Some {
            self.still().and(EffectModel::RefreshPullRequests)
        } else {
            self.still()
        }
    }

    /// The view of a pull request is made.
    pub open spec fn review_view_created(self, pr: PullRequestModel) -> Step {
        ReviewPanelModel {
            review_view: Some(ReviewViewModel { source: self.source(), pull_request: pr }),
            ..self
        }.still().and(EffectModel::CreateReviewView { source: self.source(), pull_request: pr })
    }

    /// The view of a pull request is left for the list of pull requests.
    pub open spec fn review_left(self) -> Step {
        ReviewPanelModel {
            selected_pr: None,
            review_view: None,
            ..self
        }.pull_request_list_shown()
    }

    /// The changes of a file are shown when the panel is drawn; the file list marks the file.
    pub open spec fn file_diff_opened(self, path: Seq<char>) -> Step {
        let notify = EffectModel::Notify(Entity::FileList);
        Step {
            panel: ReviewPanelModel {
                file_list: match self.file_list {
                    Some(list) => Some(list.opened(path)),
                    None => None,
                },
                pending_action: Some(PendingActionModel::OpenDiff(path)),
                ..self
            },
            effects: if self.file_list is Some {
                seq![notify, notify]
            } else {
                seq![]
            },
        }.and(EffectModel::Notify(Entity::Panel))
    }

    /// A file is opened when the panel is drawn.
    pub open spec fn local_file_opened(self, path: Seq<char>) -> Step {
        ReviewPanelModel {
            pending_action: Some(PendingActionModel::OpenLocal(path)),
            ..self
        }.still().and(EffectModel::Notify(Entity::Panel))
    }

    /// What waits for the panel to be drawn is done, if it can be, and waits no longer.
    pub open spec fn flushed(
        self,
        workspace_open: bool,
        project_path: Option<ProjectPathModel>,
    ) -> Step {
        let panel = ReviewPanelModel { pending_action: None, ..self };
        let reachable = workspace_open && self.active_repository is Some;
        match (self.pending_action, project_path) {
            (Some(PendingActionModel::OpenDiff(_)), Some(project_path)) if reachable => {
                match self.selected_pr {
                    Some(pr) => panel.still().and(
                        EffectModel::DeployMergeDiff {
                            base_ref: pr.base_ref,
                            head_ref: Some(pr.head_sha),
                            project_path,
                        },
                    ),
                    None => panel.still().and(EffectModel::ShowBranchDiff),
                }
            },
            (Some(PendingActionModel::OpenLocal(_)), Some(project_path)) if reachable => {
                panel.still().and(
                    EffectModel::OpenPathPreview {
                        project_path,
                        pane: None,
                        focus_item: true,
                        allow_preview: false,
                        activate: true,
                    },
                )
            },
            (Some(PendingActionModel::SelectPullRequest(pr)), _) => panel.review_view_created(pr),
            _ => panel.still(),
        }
    }

    /// The path that the pending action is about.
    pub open spec fn pending_path(self) -> Option<Seq<char>> {
        match self.pending_action {
            Some(PendingActionModel::OpenDiff(path)) => Some(path),
            Some(PendingActionModel::OpenLocal(path)) => Some(path),
            _ => None,
        }
    }

    /// A review that was open before is opened again.
    pub open spec fn recent_review_opened(
        self,
        base: Seq<char>,
        head: Seq<char>,
        pull_request: Option<PullRequestModel>,
    ) -> Step {
        let panel = ReviewPanelModel { base_branch: Some(base), head_branch: Some(head), ..self };
        match pull_request {
            Some(pr) => panel.pull_request_selected(pr),
            None => ReviewPanelModel {
                selected_pr: None,
                review_view: None,
                ..panel
            }.diff_requested(),
        }
    }

    /// A switch between tree and list goes to the view that it was shown for, if it exists.
    pub open spec fn tree_view_toggled(self, in_review: bool) -> Step {
        if in_review && self.review_view is Some {
            self.still().and(EffectModel::ToggleReviewTreeView)
        } else if !in_review && self.file_list is Some {
            self.still().and(EffectModel::ToggleFileListTreeView)
        } else {
            self.still()
        }
    }

    /// What a menu entry or a button does.
    pub open spec fn menu_chosen(self, action: MenuActionModel) -> Step {
        match action {
            MenuActionModel::Nothing => self.still(),
            MenuActionModel::NewReview => self.pull_request_list_shown(),
            MenuActionModel::OpenRecentReview { base, head, pull_request } =>
                self.recent_review_opened(base, head, pull_request),
            MenuActionModel::ToggleTreeView { in_review } => self.tree_view_toggled(in_review),
            MenuActionModel::Refresh => self.pull_requests_refreshed(),
        }
    }

    /// The user has done something in the file list, where there is one.
    pub open spec fn file_list_acted(self, action: FileListActionModel) -> Step {
        match self.file_list {
            Some(list) => Step {
                panel: ReviewPanelModel { file_list: Some(acted(list, action)), ..self },
                effects: action_effects(list, action),
            },
            None => self.still(),
        }
    }

    /// Whether what is shown is a tree, given whether the two views that can be are trees.
    pub open spec fn shows_tree(self, file_list_tree: bool, review_tree: bool) -> bool {
        match self.active_view {
            ActiveView::FileList => self.file_list is Some && file_list_tree,
            ActiveView::ReviewThread => self.review_view is Some && review_tree,
            _ => false,
        }
    }

    /// The menu of options.
    pub open spec fn options_menu(self, file_list_tree: bool, review_tree: bool) -> Seq<
        MenuItemModel,
    > {
        let toggle = if self.active_view is FileList || self.active_view is ReviewThread {
            seq![
                MenuItemModel::Entry {
                    label: if self.shows_tree(file_list_tree, review_tree) {
                        "Flat View"@
                    } else {
                        "Tree View"@
                    },
                    action: MenuActionModel::ToggleTreeView {
                        in_review: self.active_view is ReviewThread,
                    },
                },
                MenuItemModel::Separator,
            ]
        } else {
            seq![]
        };
        toggle + seq![
            MenuItemModel::Entry {
                label: "Configuration"@,
                action: MenuActionModel::Nothing,
            },
            MenuItemModel::Separator,
            MenuItemModel::Entry { label: "Full Screen"@, action: MenuActionModel::Nothing },
            MenuItemModel::Separator,
            MenuItemModel::Entry { label: "Refresh"@, action: MenuActionModel::Refresh },
        ]
    }

    /// What the panel shows below its toolbar.
    pub open spec fn body(self) -> PanelBodyModel {
        match self.active_view {
            ActiveView::Empty => PanelBodyModel::Message("No review selected"@),
            ActiveView::PullRequestList => if self.pull_request_list is Some {
                PanelBodyModel::PullRequestList
            } else {
                PanelBodyModel::Message("Loading..."@)
            },
            ActiveView::ReviewThread => if self.review_view is Some {
                PanelBodyModel::ReviewView
            } else {
                PanelBodyModel::Message("Loading..."@)
            },
            ActiveView::FileList => match self.file_list {
                Some(list) => PanelBodyModel::FileList(list.shown()),
                None => PanelBodyModel::Message("Loading..."@),
            },
            ActiveView::Configuration => PanelBodyModel::Message("Configuration (coming soon)"@),
        }
    }

    /// The toolbar: a button for a new review, and the two menus.
    pub open spec fn toolbar(self, file_list_tree: bool, review_tree: bool) -> ToolbarModel {
        ToolbarModel {
            title: "Review"@,
            new_review: ActionButtonModel {
                id: "new-review"@,
                icon: IconName::Plus,
                tooltip: "New Review"@,
                action: MenuActionModel::NewReview,
            },
            recent_reviews: MenuButtonModel {
                id: "review-nav-menu"@,
                icon: IconName::MenuAltTemp,
                tooltip: "Recent Reviews"@,
                menu: recent_menu(self.recent_reviews),
            },
            options: MenuButtonModel {
                id: "review-options-menu"@,
                icon: IconName::EllipsisVertical,
                tooltip: "Options"@,
                menu: self.options_menu(file_list_tree, review_tree),
            },
        }
    }
}

/// What the panel shows below its toolbar.
pub enum PanelBodyModel {
    Message(Seq<char>),
    PullRequestList,
    ReviewView,
    FileList(FileListViewModel),
}

/// The toolbar of the panel.
pub struct ToolbarModel {
    pub title: Seq<char>,
    pub new_review: ActionButtonModel,
    pub recent_reviews: MenuButtonModel,
    pub options: MenuButtonModel,
}

/// The panel on the screen.
pub struct PanelViewModel {
    pub toolbar: ToolbarModel,
    pub body: PanelBodyModel,
}

} // verus!
