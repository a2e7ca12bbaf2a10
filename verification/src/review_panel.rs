//! The review panel: its state, the events that change it, and what it shows.
use crate::effects::{
    clone_pull_request, clone_text, Context, DiffTreeType, Effect, EffectModel, Entity,
    FileListEvent, ProjectPath, ProviderId, PullRequestInfo, PullRequestSource, RepositoryId,
};
use crate::elements::{ActionButton, IconName, MenuAction, MenuButton, MenuItem};
use crate::file_list::{FileList, FileListView};
use crate::github_remote::parse_github_remote;
use crate::panel_model::{
    fetch_args, head_of, ActiveView, BranchModel, FileListActionModel, GitStoreEventModel,
    PanelBodyModel, PanelViewModel, PendingActionModel, ReviewPanelModel, ReviewViewModel, Step,
    ToolbarModel,
};
use crate::recent_reviews::{
    build_recent_menu, law_recorded_is_recent_list, recent_menu, record_review, RecentReview,
};
use crate::repo_path::RepoPath;
use crate::text::{append_decimal, opt_view, seq_view};
use crate::tree_diff::TreeDiff;
use vstd::prelude::*;

verus! {

/// What waits for the next time the panel is drawn.
#[derive(Debug, PartialEq, Eq)]
pub enum PendingAction {
    OpenDiff(RepoPath),
    OpenLocal(RepoPath),
    SelectPullRequest(PullRequestInfo),
}

impl View for PendingAction {
    type V = PendingActionModel;

    open spec fn view(&self) -> PendingActionModel {
        match *self {
            PendingAction::OpenDiff(path) => PendingActionModel::OpenDiff(path@),
            PendingAction::OpenLocal(path) => PendingActionModel::OpenLocal(path@),
            PendingAction::SelectPullRequest(pr) => PendingActionModel::SelectPullRequest(pr@),
        }
    }
}

/// The view of a pull request, by what it was made of.
#[derive(Debug, PartialEq, Eq)]
pub struct ReviewView {
    pub source: PullRequestSource,
    pub pull_request: PullRequestInfo,
}

impl View for ReviewView {
    type V = ReviewViewModel;

    open spec fn view(&self) -> ReviewViewModel {
        ReviewViewModel { source: self.source@, pull_request: self.pull_request@ }
    }
}

/// What happens to the repositories of the project. An event carries what the panel reads of the
/// repository that is open when it comes.
#[derive(Debug, PartialEq, Eq)]
pub enum GitStoreEvent {
    /// Another repository is open, or none.
    ActiveRepositoryChanged { active_repository: Option<RepositoryId>, remote_url: Option<String> },
    /// Another branch is checked out.
    BranchChanged,
    /// Something else changed in a repository.
    RepositoryUpdated { remote_url: Option<String> },
    /// Something that is of no interest here.
    Other,
}

impl View for GitStoreEvent {
    type V = GitStoreEventModel;

    open spec fn view(&self) -> GitStoreEventModel {
        match *self {
            GitStoreEvent::ActiveRepositoryChanged { active_repository, remote_url } =>
                GitStoreEventModel::ActiveRepositoryChanged {
                active_repository,
                remote_url: opt_view(remote_url),
            },
            GitStoreEvent::BranchChanged => GitStoreEventModel::BranchChanged,
            GitStoreEvent::RepositoryUpdated { remote_url } =>
                GitStoreEventModel::RepositoryUpdated { remote_url: opt_view(remote_url) },
            GitStoreEvent::Other => GitStoreEventModel::Other,
        }
    }
}

/// The answer to a question that was put to a repository.
#[derive(Debug, PartialEq, Eq)]
pub enum Reply<T> {
    /// The question was dropped before it was answered.
    Canceled,
    /// The question could not be answered.
    Failed,
    /// The answer.
    Loaded(T),
}

/// A branch of a repository.
#[derive(Debug, PartialEq, Eq)]
pub struct Branch {
    pub ref_name: String,
    pub is_head: bool,
}

impl View for Branch {
    type V = BranchModel;

    open spec fn view(&self) -> BranchModel {
        BranchModel { ref_name: self.ref_name@, is_head: self.is_head }
    }
}

/// How a fetch ended.
#[derive(Clone, Copy, Debug, PartialEq, Eq)]
pub enum FetchOutcome {
    /// Git could not be run.
    NotRun,
    /// Git has run, and says whether it succeeded.
    Exited { success: bool },
}

/// What the view of a pull request tells the panel.
#[derive(Debug, PartialEq, Eq)]
pub enum ReviewViewEvent {
    OpenFileDiff(RepoPath),
    Back,
}

/// What the user does in the file list.
#[derive(Debug, PartialEq, Eq)]
pub enum FileListAction {
    SelectNext,
    SelectPrevious,
    Confirm,
    OpenLocalFile,
    Click(RepoPath),
}

impl View for FileListAction {
    type V = FileListActionModel;

    open spec fn view(&self) -> FileListActionModel {
        match *self {
            FileListAction::SelectNext => FileListActionModel::SelectNext,
            FileListAction::SelectPrevious => FileListActionModel::SelectPrevious,
            FileListAction::Confirm => FileListActionModel::Confirm,
            FileListAction::OpenLocalFile => FileListActionModel::OpenLocalFile,
            FileListAction::Click(path) => FileListActionModel::Click(path@),
        }
    }
}

/// A side of the window at which a panel can be docked.
#[derive(Clone, Copy, Debug, PartialEq, Eq)]
pub enum DockPosition {
    Left,
    Bottom,
    Right,
}

/// The toolbar of the panel.
#[derive(Debug, PartialEq, Eq)]
pub struct Toolbar {
    pub title: String,
    pub new_review: ActionButton,
    pub recent_reviews: MenuButton,
    pub options: MenuButton,
}

impl View for Toolbar {
    type V = ToolbarModel;

    open spec fn view(&self) -> ToolbarModel {
        ToolbarModel {
            title: self.title@,
            new_review: self.new_review@,
            recent_reviews: self.recent_reviews@,
            options: self.options@,
        }
    }
}

/// What the panel shows below its toolbar.
#[derive(Debug, PartialEq, Eq)]
pub enum PanelBody {
    Message(String),
    PullRequestList,
    ReviewView,
    FileList(FileListView),
}

impl View for PanelBody {
    type V = PanelBodyModel;

    open spec fn view(&self) -> PanelBodyModel {
        match *self {
            PanelBody::Message(message) => PanelBodyModel::Message(message@),
            PanelBody::PullRequestList => PanelBodyModel::PullRequestList,
            PanelBody::ReviewView => PanelBodyModel::ReviewView,
            PanelBody::FileList(view) => PanelBodyModel::FileList(view@),
        }
    }
}

/// The panel on the screen.
#[derive(Debug, PartialEq, Eq)]
pub struct PanelView {
    pub toolbar: Toolbar,
    pub body: PanelBody,
}

impl View for PanelView {
    type V = PanelViewModel;

    open spec fn view(&self) -> PanelViewModel {
        PanelViewModel { toolbar: self.toolbar@, body: self.body@ }
    }
}

/// A panel in which changes are reviewed.
pub struct ReviewPanel {
    active_repository: Option<RepositoryId>,
    base_branch: Option<String>,
    head_branch: Option<String>,
    tree_diff: Option<TreeDiff>,
    file_list: Option<FileList>,
    review_view: Option<ReviewView>,
    active_view: ActiveView,
    recent_reviews: Vec<RecentReview>,
    pull_request_list: Option<PullRequestSource>,
    provider: Option<ProviderId>,
    remote_owner: Option<String>,
    remote_repo: Option<String>,
    selected_pr: Option<PullRequestInfo>,
    pr_ref_fetch_task: Option<u64>,
    pending_action: Option<PendingAction>,
}

impl View for ReviewPanel {
    type V = ReviewPanelModel;

    closed spec fn view(&self) -> ReviewPanelModel {
        ReviewPanelModel {
            active_repository: self.active_repository,
            base_branch: opt_view(self.base_branch),
            head_branch: opt_view(self.head_branch),
            tree_diff: opt_view(self.tree_diff),
            file_list: opt_view(self.file_list),
            review_view: opt_view(self.review_view),
            active_view: self.active_view,
            recent_reviews: seq_view(self.recent_reviews@),
            pull_request_list: opt_view(self.pull_request_list),
            provider: self.provider,
            remote_owner: opt_view(self.remote_owner),
            remote_repo: opt_view(self.remote_repo),
            selected_pr: opt_view(self.selected_pr),
            pr_ref_fetch_task: self.pr_ref_fetch_task,
            pending_action: opt_view(self.pending_action),
        }
    }
}

/// Whether an operation took the panel and the effects through a step.
pub open spec fn took(
    step: Step,
    panel: ReviewPanelModel,
    before: Seq<EffectModel>,
    after: Seq<EffectModel>,
) -> bool {
    panel == step.panel && after =~= before + step.effects
}

impl ReviewPanel {
    /// A panel for the repository that is open. It asks for a provider and for the branches.
    pub fn new(
        active_repository: Option<RepositoryId>,
        remote_url: &Option<String>,
        cx: &mut Context,
    ) -> (panel: ReviewPanel)
        ensures
            panel@.wf(),
            took(
                ReviewPanelModel::created(active_repository, opt_view(*remote_url)),
                panel@,
                old(cx)@,
                final(cx)@,
            ),
    {
        let mut panel = ReviewPanel {
            active_repository,
            base_branch: None,
            head_branch: None,
            tree_diff: None,
            file_list: None,
            review_view: None,
            active_view: ActiveView::Empty,
            recent_reviews: Vec::new(),
            pull_request_list: None,
            provider: None,
            remote_owner: None,
            remote_repo: None,
            selected_pr: None,
            pr_ref_fetch_task: None,
            pending_action: None,
        };
        assert(panel@.recent_reviews =~= Seq::empty());
        panel.initialize_provider(remote_url, cx);
        panel.load_branches(cx);
        panel
    }

    /// Asks for a provider of pull requests where the remote of the repository is on GitHub.
    pub fn initialize_provider(&mut self, remote_url: &Option<String>, cx: &mut Context)
        requires
            old(self)@.wf(),
        ensures
            final(self)@.wf(),
            took(
                old(self)@.provider_initialized(opt_view(*remote_url)),
                final(self)@,
                old(cx)@,
                final(cx)@,
            ),
    {
        if self.active_repository.is_none() {
            return;
        }
        let url = match remote_url {
            Some(url) => url,
            None => {
                return;
            },
        };
        if let Ok((owner, repo)) = parse_github_remote(url.as_str()) {
            self.remote_owner = Some(owner);
            self.remote_repo = Some(repo);
            cx.push(Effect::ResolveProvider);
        }
    }

    /// Asks for the branches of the repository that is open.
    pub fn load_branches(&mut self, cx: &mut Context)
        requires
            old(self)@.wf(),
        ensures
            final(self)@.wf(),
            took(old(self)@.branches_requested(), final(self)@, old(cx)@, final(cx)@),
    {
        if let Some(repository) = self.active_repository {
            cx.push(Effect::LoadBranches { repository, include_remote_name: false });
        }
    }

    /// Takes note of what happened to the repositories of the project.
    pub fn handle_git_store_event(&mut self, event: GitStoreEvent, cx: &mut Context)
        requires
            old(self)@.wf(),
        ensures
            final(self)@.wf(),
            took(old(self)@.git_store_changed(event@), final(self)@, old(cx)@, final(cx)@),
    {
        match event {
            GitStoreEvent::ActiveRepositoryChanged { active_repository, remote_url } => {
                self.active_repository = active_repository;
                self.initialize_provider(&remote_url, cx);
                self.load_branches(cx);
                cx.notify(Entity::Panel);
            },
            GitStoreEvent::BranchChanged => {
                self.load_branches(cx);
            },
            GitStoreEvent::RepositoryUpdated { remote_url } => {
                if self.provider.is_none() {
                    self.initialize_provider(&remote_url, cx);
                }
            },
            GitStoreEvent::Other => {},
        }
    }

    /// Takes the provider that was asked for.
    pub fn provider_resolved(&mut self, provider: ProviderId, cx: &mut Context)
        requires
            old(self)@.wf(),
        ensures
            final(self)@.wf(),
            took(old(self)@.provider_resolved(provider), final(self)@, old(cx)@, final(cx)@),
    {
        self.provider = Some(provider);
        if self.pull_request_list.is_some() {
            let owner = clone_text(&self.remote_owner);
            let repo = clone_text(&self.remote_repo);
            if let (Some(owner), Some(repo)) = (owner, repo) {
                self.pull_request_list = Some(self.source());
                cx.push(Effect::SetProvider { provider, owner, repo });
            }
        }
        cx.notify(Entity::Panel);
    }

    /// Where pull requests come from.
    fn source(&self) -> (source: PullRequestSource)
        ensures
            source@ == self@.source(),
    {
        PullRequestSource {
            provider: self.provider,
            owner: clone_text(&self.remote_owner),
            repo: clone_text(&self.remote_repo),
        }
    }

    /// Takes the answer to the question for the default branch. The question for the branches is
    /// still open unless the first one was dropped.
    pub fn default_branch_loaded(&mut self, reply: Reply<Option<String>>, cx: &mut Context) -> (
    go_on: bool)
        requires
            old(self)@.wf(),
        ensures
            final(self)@.wf(),
            go_on == !(reply is Canceled),
            took(
                match reply {
                    Reply::Loaded(Some(default_branch)) => old(self)@.default_branch_found(
                        default_branch@,
                    ),
                    _ => old(self)@.still(),
                },
                final(self)@,
                old(cx)@,
                final(cx)@,
            ),
    {
        match reply {
            Reply::Canceled => false,
            Reply::Failed => true,
            Reply::Loaded(default_branch) => {
                if let Some(default_branch) = default_branch {
                    self.base_branch = Some(default_branch);
                    cx.notify(Entity::Panel);
                }
                true
            },
        }
    }

    /// Takes the branches that were asked for.
    pub fn branches_loaded(&mut self, reply: Reply<Vec<Branch>>, cx: &mut Context)
        requires
            old(self)@.wf(),
        ensures
            final(self)@.wf(),
            took(
                match reply {
                    Reply::Loaded(branches) => old(self)@.branches_found(seq_view(branches@)),
                    _ => old(self)@.still(),
                },
                final(self)@,
                old(cx)@,
                final(cx)@,
            ),
    {
        if let Reply::Loaded(branches) = reply {
            if let Some(head) = find_head(&branches) {
                self.head_branch = Some(head);
                self.load_diff(cx);
                cx.notify(Entity::Panel);
            }
        }
    }

    /// Asks for the diff of the two branches, once all that it takes is known.
    pub fn load_diff(&mut self, cx: &mut Context)
        requires
            old(self)@.wf(),
        ensures
            final(self)@.wf(),
            took(old(self)@.diff_requested(), final(self)@, old(cx)@, final(cx)@),
    {
        if let Some(repository) = self.active_repository {
            let base = clone_text(&self.base_branch);
            let head = clone_text(&self.head_branch);
            if let (Some(base), Some(head)) = (base, head) {
                let diff_type = DiffTreeType::MergeBase { base, head };
                cx.push(Effect::LoadDiff { repository, diff_type });
            }
        }
    }

    /// Takes the answer to the question for a diff. A question that was dropped or could not be
    /// answered changes nothing.
    pub fn diff_loaded(&mut self, reply: Reply<TreeDiff>, cx: &mut Context)
        requires
            old(self)@.wf(),
        ensures
            final(self)@.wf(),
            took(
                match reply {
                    Reply::Loaded(tree_diff) => old(self)@.diff_loaded(tree_diff@),
                    _ => old(self)@.still(),
                },
                final(self)@,
                old(cx)@,
                final(cx)@,
            ),
    {
        let tree_diff = match reply {
            Reply::Loaded(tree_diff) => tree_diff,
            _ => {
                return;
            },
        };
        let file_count: usize = tree_diff.len();
        self.tree_diff = Some(tree_diff);
        let base = clone_text(&self.base_branch);
        let head = clone_text(&self.head_branch);
        if let (Some(base_branch), Some(head_branch)) = (base, head) {
            let pull_request = clone_pull_request(&self.selected_pr);
            let review = RecentReview { base_branch, head_branch, file_count, pull_request };
            proof {
                law_recorded_is_recent_list(seq_view(self.recent_reviews@), review@);
            }
            record_review(&mut self.recent_reviews, review);
        }
        if self.review_view.is_some() {
            cx.push(Effect::SetReviewTreeDiff);
        }
        let in_review: bool = match self.active_view {
            ActiveView::ReviewThread => true,
            _ => false,
        };
        if !in_review && file_count > 0 {
            self.show_file_list(cx);
        }
    }

    /// Shows the files of the diff in a new list.
    pub fn show_file_list(&mut self, cx: &mut Context)
        requires
            old(self)@.wf(),
        ensures
            final(self)@.wf(),
            took(old(self)@.file_list_shown(), final(self)@, old(cx)@, final(cx)@),
    {
        let list = FileList::new(
            clone_text(&self.base_branch),
            clone_text(&self.head_branch),
            self.tree_diff.as_ref(),
            cx,
        );
        self.file_list = Some(list);
        self.active_view = ActiveView::FileList;
        cx.push(Effect::CreateFileList);
        cx.notify(Entity::Panel);
    }

    /// Changes what is shown below the toolbar.
    fn set_active_view(&mut self, new_view: ActiveView, cx: &mut Context)
        ensures
            final(self)@ == (ReviewPanelModel { active_view: new_view, ..old(self)@ }),
            final(cx)@ == old(cx)@.push(EffectModel::Notify(Entity::Panel)),
    {
        self.active_view = new_view;
        cx.notify(Entity::Panel);
    }

    /// Has the list of pull requests loaded anew.
    pub fn refresh_pull_requests(&mut self, cx: &mut Context)
        requires
            old(self)@.wf(),
        ensures
            final(self)@.wf(),
            took(old(self)@.pull_requests_refreshed(), final(self)@, old(cx)@, final(cx)@),
    {
        if self.pull_request_list.is_some() {
            cx.push(Effect::RefreshPullRequests);
        }
    }

    /// Opens a pull request.
    pub fn select_pull_request(&mut self, pr: &PullRequestInfo, cx: &mut Context)
        requires
            old(self)@.wf(),
        ensures
            final(self)@.wf(),
            took(old(self)@.pull_request_selected(pr@), final(self)@, old(cx)@, final(cx)@),
    {
        self.selected_pr = Some(pr.clone());
        self.base_branch = Some(pr.base_ref.clone());
        self.head_branch = Some(pr.head_ref.clone());
        self.fetch_pr_ref(pr.number, cx);
        self.pending_action = Some(PendingAction::SelectPullRequest(pr.clone()));
        self.set_active_view(ActiveView::ReviewThread, cx);
    }

    /// Has the head of a pull request fetched.
    pub fn fetch_pr_ref(&mut self, pr_number: u32, cx: &mut Context)
        requires
            old(self)@.wf(),
        ensures
            final(self)@.wf(),
            took(old(self)@.ref_requested(pr_number), final(self)@, old(cx)@, final(cx)@),
    {
        if let Some(repository) = self.active_repository {
            let mut refspec = "pull/".to_string();
            append_decimal(&mut refspec, pr_number as u64);
            refspec.append("/head");
            let mut args: Vec<String> = Vec::new();
            args.push("fetch".to_string());
            args.push("origin".to_string());
            args.push(refspec);
            assert(seq_view(args@) =~= fetch_args(pr_number));
            let task: u64 = match self.pr_ref_fetch_task {
                Some(last) => {
                    if last < u64::MAX {
                        last + 1
                    } else {
                        0
                    }
                },
                None => 0,
            };
            self.pr_ref_fetch_task = Some(task);
            let program = "git".to_string();
            cx.push(
                Effect::FetchPullRequestRef { repository, task, pr_number, program, args },
            );
        }
    }

    /// Takes note that a fetch has ended. Whether git succeeded or not, the diff is asked for,
    /// unless the fetch was given up for another one.
    pub fn pr_ref_fetched(&mut self, task: u64, outcome: FetchOutcome, cx: &mut Context)
        requires
            old(self)@.wf(),
        ensures
            final(self)@.wf(),
            took(
                old(self)@.ref_fetched(task, outcome is Exited),
                final(self)@,
                old(cx)@,
                final(cx)@,
            ),
    {
        let is_last: bool = match self.pr_ref_fetch_task {
            Some(last) => last == task,
            None => false,
        };
        if let FetchOutcome::Exited { .. } = outcome {
            if is_last {
                self.load_diff(cx);
            }
        }
    }

    /// Makes the view of a pull request.
    pub fn create_review_view(&mut self, pr: &PullRequestInfo, cx: &mut Context)
        requires
            old(self)@.wf(),
        ensures
            final(self)@.wf(),
            took(old(self)@.review_view_created(pr@), final(self)@, old(cx)@, final(cx)@),
    {
        let source = self.source();
        self.review_view = Some(ReviewView { source: source.clone(), pull_request: pr.clone() });
        cx.push(Effect::CreateReviewView { source, pull_request: pr.clone() });
    }

    /// Takes note of what the view of a pull request tells.
    pub fn handle_review_view_event(&mut self, event: ReviewViewEvent, cx: &mut Context)
        requires
            old(self)@.wf(),
        ensures
            final(self)@.wf(),
            took(
                match event {
                    ReviewViewEvent::OpenFileDiff(path) => old(self)@.file_diff_opened(path@),
                    ReviewViewEvent::Back => old(self)@.review_left(),
                },
                final(self)@,
                old(cx)@,
                final(cx)@,
            ),
    {
        match event {
            ReviewViewEvent::OpenFileDiff(path) => {
                self.open_file_diff(path, cx);
            },
            ReviewViewEvent::Back => {
                self.selected_pr = None;
                self.review_view = None;
                self.show_pull_request_list(cx);
            },
        }
    }

    /// Takes note of what the file list tells.
    pub fn handle_file_list_event(&mut self, event: FileListEvent, cx: &mut Context)
        requires
            old(self)@.wf(),
        ensures
            final(self)@.wf(),
            took(
                match event {
                    FileListEvent::OpenFileDiff(path) => old(self)@.file_diff_opened(path@),
                    FileListEvent::OpenLocalFile(path) => old(self)@.local_file_opened(path@),
                },
                final(self)@,
                old(cx)@,
                final(cx)@,
            ),
    {
        match event {
            FileListEvent::OpenFileDiff(path) => {
                self.open_file_diff(path, cx);
            },
            FileListEvent::OpenLocalFile(path) => {
                self.open_local_file_by_path(path, cx);
            },
        }
    }

    /// Shows the list of pull requests.
    pub fn show_pull_request_list(&mut self, cx: &mut Context)
        requires
            old(self)@.wf(),
        ensures
            final(self)@.wf(),
            took(old(self)@.pull_request_list_shown(), final(self)@, old(cx)@, final(cx)@),
    {
        if self.pull_request_list.is_none() {
            let source = self.source();
            self.pull_request_list = Some(source.clone());
            cx.push(Effect::CreatePullRequestList { source });
        }
        cx.push(Effect::LoadPullRequestsIfEmpty);
        self.set_active_view(ActiveView::PullRequestList, cx);
    }

    /// Has the changes of a file shown; the file list marks the file.
    pub fn open_file_diff(&mut self, path: RepoPath, cx: &mut Context)
        requires
            old(self)@.wf(),
        ensures
            final(self)@.wf(),
            took(old(self)@.file_diff_opened(path@), final(self)@, old(cx)@, final(cx)@),
    {
        if let Some(list) = &mut self.file_list {
            list.mark_viewed(path.clone(), cx);
            list.select_path(&path, cx);
        }
        self.pending_action = Some(PendingAction::OpenDiff(path));
        cx.notify(Entity::Panel);
    }

    /// Has a file opened.
    pub fn open_local_file_by_path(&mut self, path: RepoPath, cx: &mut Context)
        requires
            old(self)@.wf(),
        ensures
            final(self)@.wf(),
            took(old(self)@.local_file_opened(path@), final(self)@, old(cx)@, final(cx)@),
    {
        self.pending_action = Some(PendingAction::OpenLocal(path));
        cx.notify(Entity::Panel);
    }

    /// Does what the user asks of the file list, where there is one.
    pub fn file_list_action(&mut self, action: FileListAction, cx: &mut Context)
        requires
            old(self)@.wf(),
        ensures
            final(self)@.wf(),
            took(old(self)@.file_list_acted(action@), final(self)@, old(cx)@, final(cx)@),
    {
        if let Some(list) = &mut self.file_list {
            match action {
                FileListAction::SelectNext => list.select_next(cx),
                FileListAction::SelectPrevious => list.select_previous(cx),
                FileListAction::Confirm => list.confirm(cx),
                FileListAction::OpenLocalFile => list.open_local_file(cx),
                FileListAction::Click(path) => list.click_entry(&path, cx),
            }
        }
    }

    /// The path that the pending action is about. Before the panel is drawn, the application says
    /// which file of the project it stands for.
    pub fn pending_path(&self) -> (path: Option<RepoPath>)
        ensures
            opt_view(path) == self@.pending_path(),
    {
        match &self.pending_action {
            Some(PendingAction::OpenDiff(path)) => Some(path.clone()),
            Some(PendingAction::OpenLocal(path)) => Some(path.clone()),
            _ => None,
        }
    }

    /// Does what has waited for the panel to be drawn. It takes a workspace that is still open, a
    /// repository, and the file of the project that the pending path stands for; where one of them
    /// is missing nothing is done.
    pub fn flush_pending_action(
        &mut self,
        workspace_open: bool,
        project_path: Option<ProjectPath>,
        cx: &mut Context,
    )
        requires
            old(self)@.wf(),
        ensures
            final(self)@.wf(),
            took(
                old(self)@.flushed(workspace_open, opt_view(project_path)),
                final(self)@,
                old(cx)@,
                final(cx)@,
            ),
    {
        let mut pending: Option<PendingAction> = None;
        std::mem::swap(&mut pending, &mut self.pending_action);
        let action = match pending {
            Some(action) => action,
            None => {
                return;
            },
        };
        match action {
            PendingAction::OpenDiff(_) => {
                if !workspace_open || self.active_repository.is_none() {
                    return;
                }
                let project_path = match project_path {
                    Some(project_path) => project_path,
                    None => {
                        return;
                    },
                };
                if let Some(pr) = &self.selected_pr {
                    cx.push(
                        Effect::DeployMergeDiff {
                            base_ref: pr.base_ref.clone(),
                            head_ref: Some(pr.head_sha.clone()),
                            project_path,
                        },
                    );
                } else {
                    cx.push(Effect::ShowBranchDiff);
                }
            },
            PendingAction::OpenLocal(_) => {
                if self.active_repository.is_none() {
                    return;
                }
                let project_path = match project_path {
                    Some(project_path) => project_path,
                    None => {
                        return;
                    },
                };
                if !workspace_open {
                    return;
                }
                cx.push(
                    Effect::OpenPathPreview {
                        project_path,
                        pane: None,
                        focus_item: true,
                        allow_preview: false,
                        activate: true,
                    },
                );
            },
            PendingAction::SelectPullRequest(pr) => {
                self.create_review_view(&pr, cx);
            },
        }
    }

    /// Does what a menu entry or a button stands for.
    pub fn run_menu_action(&mut self, action: MenuAction, cx: &mut Context)
        requires
            old(self)@.wf(),
        ensures
            final(self)@.wf(),
            took(old(self)@.menu_chosen(action@), final(self)@, old(cx)@, final(cx)@),
    {
        match action {
            MenuAction::Nothing => {},
            MenuAction::NewReview => {
                self.show_pull_request_list(cx);
            },
            MenuAction::OpenRecentReview { base, head, pull_request } => {
                self.base_branch = Some(base);
                self.head_branch = Some(head);
                match pull_request {
                    Some(pr) => {
                        self.select_pull_request(&pr, cx);
                    },
                    None => {
                        self.selected_pr = None;
                        self.review_view = None;
                        self.load_diff(cx);
                    },
                }
            },
            MenuAction::ToggleTreeView { in_review } => {
                if in_review {
                    if self.review_view.is_some() {
                        cx.push(Effect::ToggleReviewTreeView);
                    }
                } else if self.file_list.is_some() {
                    cx.push(Effect::ToggleFileListTreeView);
                }
            },
            MenuAction::Refresh => {
                self.refresh_pull_requests(cx);
            },
        }
    }

    /// The menu of the reviews that were opened lately.
    pub fn render_recent_reviews_menu(&self) -> (menu: Vec<MenuItem>)
        ensures
            seq_view(menu@) == recent_menu(self@.recent_reviews),
    {
        build_recent_menu(&self.recent_reviews)
    }

    /// The menu of options, given whether the file list and the view of the pull request show a
    /// tree.
    pub fn render_options_menu(&self, file_list_tree: bool, review_tree: bool) -> (menu: Vec<
        MenuItem,
    >)
        ensures
            seq_view(menu@) == self@.options_menu(file_list_tree, review_tree),
    {
        let is_review_thread: bool = match self.active_view {
            ActiveView::ReviewThread => true,
            _ => false,
        };
        let show_tree_toggle: bool = match self.active_view {
            ActiveView::FileList => true,
            ActiveView::ReviewThread => true,
            _ => false,
        };
        let is_tree_view: bool = match self.active_view {
            ActiveView::FileList => self.file_list.is_some() && file_list_tree,
            ActiveView::ReviewThread => self.review_view.is_some() && review_tree,
            _ => false,
        };
        let mut menu: Vec<MenuItem> = Vec::new();
        if show_tree_toggle {
            let label = if is_tree_view {
                "Flat View".to_string()
            } else {
                "Tree View".to_string()
            };
            menu.push(
                MenuItem::Entry {
                    label,
                    action: MenuAction::ToggleTreeView { in_review: is_review_thread },
                },
            );
            menu.push(MenuItem::Separator);
        }
        menu.push(
            MenuItem::Entry { label: "Configuration".to_string(), action: MenuAction::Nothing },
        );
        menu.push(MenuItem::Separator);
        menu.push(
            MenuItem::Entry { label: "Full Screen".to_string(), action: MenuAction::Nothing },
        );
        menu.push(MenuItem::Separator);
        menu.push(MenuItem::Entry { label: "Refresh".to_string(), action: MenuAction::Refresh });
        assert(seq_view(menu@) =~= self@.options_menu(file_list_tree, review_tree));
        menu
    }

    /// The toolbar: a title, a button for a new review and the two menus.
    pub fn render_toolbar(&self, file_list_tree: bool, review_tree: bool) -> (toolbar: Toolbar)
        ensures
            toolbar@ == self@.toolbar(file_list_tree, review_tree),
    {
        Toolbar {
            title: "Review".to_string(),
            new_review: ActionButton {
                id: "new-review".to_string(),
                icon: IconName::Plus,
                tooltip: "New Review".to_string(),
                action: MenuAction::NewReview,
            },
            recent_reviews: MenuButton {
                id: "review-nav-menu".to_string(),
                icon: IconName::MenuAltTemp,
                tooltip: "Recent Reviews".to_string(),
                menu: self.render_recent_reviews_menu(),
            },
            options: MenuButton {
                id: "review-options-menu".to_string(),
                icon: IconName::EllipsisVertical,
                tooltip: "Options".to_string(),
                menu: self.render_options_menu(file_list_tree, review_tree),
            },
        }
    }

    /// What is shown below the toolbar.
    fn render_body(&self) -> (body: PanelBody)
        ensures
            body@ == self@.body(),
    {
        match self.active_view {
            ActiveView::Empty => PanelBody::Message("No review selected".to_string()),
            ActiveView::PullRequestList => {
                if self.pull_request_list.is_some() {
                    PanelBody::PullRequestList
                } else {
                    PanelBody::Message("Loading...".to_string())
                }
            },
            ActiveView::ReviewThread => {
                if self.review_view.is_some() {
                    PanelBody::ReviewView
                } else {
                    PanelBody::Message("Loading...".to_string())
                }
            },
            ActiveView::FileList => {
                match &self.file_list {
                    Some(list) => PanelBody::FileList(list.render()),
                    None => PanelBody::Message("Loading...".to_string()),
                }
            },
            ActiveView::Configuration => {
                PanelBody::Message("Configuration (coming soon)".to_string())
            },
        }
    }

    /// Draws the panel, after what has waited for that was done.
    pub fn render(
        &mut self,
        workspace_open: bool,
        project_path: Option<ProjectPath>,
        file_list_tree: bool,
        review_tree: bool,
        cx: &mut Context,
    ) -> (view: PanelView)
        requires
            old(self)@.wf(),
        ensures
            final(self)@.wf(),
            took(
                old(self)@.flushed(workspace_open, opt_view(project_path)),
                final(self)@,
                old(cx)@,
                final(cx)@,
            ),
            view@ == (PanelViewModel {
                toolbar: final(self)@.toolbar(file_list_tree, review_tree),
                body: final(self)@.body(),
            }),
    {
        self.flush_pending_action(workspace_open, project_path, cx);
        PanelView {
            toolbar: self.render_toolbar(file_list_tree, review_tree),
            body: self.render_body(),
        }
    }

    /// Whether there is a view of a pull request.
    pub fn has_review_view(&self) -> (has: bool)
        ensures
            has == (self@.review_view is Some),
    {
        self.review_view.is_some()
    }

    /// The name under which the panel is stored.
    pub fn persistent_name() -> (name: &'static str)
        ensures
            name@ == "ReviewPanel"@,
    {
        "ReviewPanel"
    }

    /// The key under which the settings of the panel are stored.
    pub fn panel_key() -> (key: &'static str)
        ensures
            key@ == "ReviewPanel"@,
    {
        "ReviewPanel"
    }

    /// Whether the panel can be docked at a side of the window.
    pub fn position_is_valid(&self, position: DockPosition) -> (valid: bool)
        ensures
            valid == (position is Left || position is Right),
    {
        match position {
            DockPosition::Left => true,
            DockPosition::Right => true,
            DockPosition::Bottom => false,
        }
    }

    /// The icon of the panel, where the settings ask for a button.
    pub fn icon(&self, button: bool) -> (icon: Option<IconName>)
        ensures
            icon == (if button {
                Some(IconName::PullRequest)
            } else {
                None
            }),
    {
        if button {
            Some(IconName::PullRequest)
        } else {
            None
        }
    }

    /// The tooltip of the icon.
    pub fn icon_tooltip(&self) -> (tooltip: Option<&'static str>)
        ensures
            tooltip matches Some(text) && text@ == "Review Panel"@,
    {
        Some("Review Panel")
    }

    /// Where the panel stands among the others.
    pub fn activation_priority(&self) -> (priority: u32)
        ensures
            priority == 10,
    {
        10
    }
}

/// The name of the first branch that is checked out.
fn find_head(branches: &Vec<Branch>) -> (head: Option<String>)
    ensures
        opt_view(head) == head_of(seq_view(branches@)),
{
    let ghost models = seq_view(branches@);
    let mut i: usize = 0;
    assert(models.skip(0) =~= models);
    while i < branches.len()
        invariant
            models == seq_view(branches@),
            i <= branches@.len(),
            head_of(models) == head_of(models.skip(i as int)),
        decreases branches@.len() - i,
    {
        assert(models.skip(i as int).drop_first() =~= models.skip(i + 1));
        if branches[i].is_head {
            return Some(branches[i].ref_name.clone());
        }
        i = i + 1;
    }
    None
}

} // verus!
