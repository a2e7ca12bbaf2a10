//! What the panel asks of the application around it, as values.
use crate::repo_path::RepoPath;
use crate::text::{opt_view, seq_view};
use vstd::prelude::*;

verus! {

/// A repository that the application has open.
#[derive(Clone, Copy, Debug, PartialEq, Eq)]
pub struct RepositoryId {
    pub id: u64,
}

/// A service that lists pull requests, held by the application.
#[derive(Clone, Copy, Debug, PartialEq, Eq)]
pub struct ProviderId {
    pub id: u64,
}

/// All that the application knows of a pull request, held by the application.
#[derive(Clone, Copy, Debug, PartialEq, Eq)]
pub struct PullRequestId {
    pub id: u64,
}

/// A pull request, as far as the panel goes by it.
#[derive(Debug, PartialEq, Eq)]
pub struct PullRequestInfo {
    pub id: PullRequestId,
    pub number: u32,
    pub base_ref: String,
    pub head_ref: String,
    pub head_sha: String,
}

/// A pull request, its names as text.
pub struct PullRequestModel {
    pub id: PullRequestId,
    pub number: u32,
    pub base_ref: Seq<char>,
    pub head_ref: Seq<char>,
    pub head_sha: Seq<char>,
}

impl View for PullRequestInfo {
    type V = PullRequestModel;

    open spec fn view(&self) -> PullRequestModel {
        PullRequestModel {
            id: self.id,
            number: self.number,
            base_ref: self.base_ref@,
            head_ref: self.head_ref@,
            head_sha: self.head_sha@,
        }
    }
}

impl Clone for PullRequestInfo {
    fn clone(&self) -> (pr: PullRequestInfo)
        ensures
            pr == *self,
    {
        PullRequestInfo {
            id: self.id,
            number: self.number,
            base_ref: self.base_ref.clone(),
            head_ref: self.head_ref.clone(),
            head_sha: self.head_sha.clone(),
        }
    }
}

/// A file of the project: a worktree and a path in it.
#[derive(Debug, PartialEq, Eq)]
pub struct ProjectPath {
    pub worktree_id: u64,
    pub path: RepoPath,
}

/// A file of the project, its path as text.
pub struct ProjectPathModel {
    pub worktree_id: u64,
    pub path: Seq<char>,
}

impl View for ProjectPath {
    type V = ProjectPathModel;

    open spec fn view(&self) -> ProjectPathModel {
        ProjectPathModel { worktree_id: self.worktree_id, path: self.path@ }
    }
}

/// What a file list tells the panel.
#[derive(Debug, PartialEq, Eq)]
pub enum FileListEvent {
    OpenFileDiff(RepoPath),
    OpenLocalFile(RepoPath),
}

/// What a file list tells the panel, the path as text.
pub enum FileListEventModel {
    OpenFileDiff(Seq<char>),
    OpenLocalFile(Seq<char>),
}

impl View for FileListEvent {
    type V = FileListEventModel;

    open spec fn view(&self) -> FileListEventModel {
        match *self {
            FileListEvent::OpenFileDiff(path) => FileListEventModel::OpenFileDiff(path@),
            FileListEvent::OpenLocalFile(path) => FileListEventModel::OpenLocalFile(path@),
        }
    }
}

/// Where pull requests come from: a service and the remote repository to ask it about.
#[derive(Debug, PartialEq, Eq)]
pub struct PullRequestSource {
    pub provider: Option<ProviderId>,
    pub owner: Option<String>,
    pub repo: Option<String>,
}

/// Where pull requests come from, the names as text.
pub struct PullRequestSourceModel {
    pub provider: Option<ProviderId>,
    pub owner: Option<Seq<char>>,
    pub repo: Option<Seq<char>>,
}

impl View for PullRequestSource {
    type V = PullRequestSourceModel;

    open spec fn view(&self) -> PullRequestSourceModel {
        PullRequestSourceModel {
            provider: self.provider,
            owner: opt_view(self.owner),
            repo: opt_view(self.repo),
        }
    }
}

impl Clone for PullRequestSource {
    fn clone(&self) -> (source: PullRequestSource)
        ensures
            source@ == self@,
    {
        PullRequestSource {
            provider: self.provider,
            owner: clone_text(&self.owner),
            repo: clone_text(&self.repo),
        }
    }
}

/// A copy of an optional text.
pub fn clone_text(text: &Option<String>) -> (copy: Option<String>)
    ensures
        copy == *text,
        opt_view(copy) == opt_view(*text),
{
    match text {
        Some(text) => Some(text.clone()),
        None => None,
    }
}

/// A copy of an optional pull request.
pub fn clone_pull_request(pr: &Option<PullRequestInfo>) -> (copy: Option<PullRequestInfo>)
    ensures
        copy == *pr,
        opt_view(copy) == opt_view(*pr),
{
    match pr {
        Some(pr) => Some(pr.clone()),
        None => None,
    }
}

/// A part of the window that holds open files.
#[derive(Clone, Copy, Debug, PartialEq, Eq)]
pub struct PaneId {
    pub id: u64,
}

/// How two branches are compared.
#[derive(Debug, PartialEq, Eq)]
pub enum DiffTreeType {
    /// `head` with the commit where it left `base`.
    MergeBase { base: String, head: String },
}

/// How two branches are compared, the names as text.
pub enum DiffTreeTypeModel {
    MergeBase { base: Seq<char>, head: Seq<char> },
}

impl View for DiffTreeType {
    type V = DiffTreeTypeModel;

    open spec fn view(&self) -> DiffTreeTypeModel {
        match *self {
            DiffTreeType::MergeBase { base, head } => DiffTreeTypeModel::MergeBase {
                base: base@,
                head: head@,
            },
        }
    }
}

/// What is on the screen and may have to be drawn anew.
#[derive(Clone, Copy, Debug, PartialEq, Eq)]
pub enum Entity {
    Panel,
    FileList,
}

/// Something for the application to do.
#[derive(Debug, PartialEq, Eq)]
pub enum Effect {
    /// Draw something anew.
    Notify(Entity),
    /// Hand an event of the file list to the panel.
    Emit(FileListEvent),
    /// Find the GitHub token, make a provider with it and report it to the panel.
    ResolveProvider,
    /// Ask a repository for its default branch, with or without the name of the remote, and then
    /// for its branches.
    LoadBranches { repository: RepositoryId, include_remote_name: bool },
    /// Compare two branches of a repository.
    LoadDiff { repository: RepositoryId, diff_type: DiffTreeType },
    /// Run a program in the directory of a repository, and report its end under the number of the task.
    /// A fetch that still runs is given up.
    FetchPullRequestRef {
        repository: RepositoryId,
        task: u64,
        pr_number: u32,
        program: String,
        args: Vec<String>,
    },
    /// Make a file list, in place of the one there is.
    CreateFileList,
    /// Make the list of pull requests.
    CreatePullRequestList { source: PullRequestSource },
    /// Give the list of pull requests another source.
    SetProvider { provider: ProviderId, owner: String, repo: String },
    /// Load the list of pull requests if nothing was loaded yet.
    LoadPullRequestsIfEmpty,
    /// Load the list of pull requests anew.
    RefreshPullRequests,
    /// Make the view of a pull request, in place of the one there is.
    CreateReviewView { source: PullRequestSource, pull_request: PullRequestInfo },
    /// Hand the diff of the panel to the view of the pull request.
    SetReviewTreeDiff,
    /// Switch the view of the pull request between tree and list.
    ToggleReviewTreeView,
    /// Switch the file list between tree and list.
    ToggleFileListTreeView,
    /// Show the changes of a pull request, at one file of the project.
    DeployMergeDiff { base_ref: String, head_ref: Option<String>, project_path: ProjectPath },
    /// Show the changes of the current branch.
    ShowBranchDiff,
    /// Open a file of the project, in a given pane or in the one that is in use: whether it gets
    /// the focus, whether it may be a mere preview, and whether its tab is brought to the front.
    OpenPathPreview {
        project_path: ProjectPath,
        pane: Option<PaneId>,
        focus_item: bool,
        allow_preview: bool,
        activate: bool,
    },
}

/// Something for the application to do, the names as text.
pub enum EffectModel {
    Notify(Entity),
    Emit(FileListEventModel),
    ResolveProvider,
    LoadBranches { repository: RepositoryId, include_remote_name: bool },
    LoadDiff { repository: RepositoryId, diff_type: DiffTreeTypeModel },
    FetchPullRequestRef {
        repository: RepositoryId,
        task: u64,
        pr_number: u32,
        program: Seq<char>,
        args: Seq<Seq<char>>,
    },
    CreateFileList,
    CreatePullRequestList { source: PullRequestSourceModel },
    SetProvider { provider: ProviderId, owner: Seq<char>, repo: Seq<char> },
    LoadPullRequestsIfEmpty,
    RefreshPullRequests,
    CreateReviewView { source: PullRequestSourceModel, pull_request: PullRequestModel },
    SetReviewTreeDiff,
    ToggleReviewTreeView,
    ToggleFileListTreeView,
    DeployMergeDiff {
        base_ref: Seq<char>,
        head_ref: Option<Seq<char>>,
        project_path: ProjectPathModel,
    },
    ShowBranchDiff,
    OpenPathPreview {
        project_path: ProjectPathModel,
        pane: Option<PaneId>,
        focus_item: bool,
        allow_preview: bool,
        activate: bool,
    },
}

impl View for Effect {
    type V = EffectModel;

    open spec fn view(&self) -> EffectModel {
        match *self {
            Effect::Notify(entity) => EffectModel::Notify(entity),
            Effect::Emit(event) => EffectModel::Emit(event@),
            Effect::ResolveProvider => EffectModel::ResolveProvider,
            Effect::LoadBranches { repository, include_remote_name } => EffectModel::LoadBranches {
                repository,
                include_remote_name,
            },
            Effect::LoadDiff { repository, diff_type } => EffectModel::LoadDiff {
                repository,
                diff_type: diff_type@,
            },
            Effect::FetchPullRequestRef { repository, task, pr_number, program, args } =>
                EffectModel::FetchPullRequestRef {
                repository,
                task,
                pr_number,
                program: program@,
                args: seq_view(args@),
            },
            Effect::CreateFileList => EffectModel::CreateFileList,
            Effect::CreatePullRequestList { source } => EffectModel::CreatePullRequestList {
                source: source@,
            },
            Effect::SetProvider { provider, owner, repo } => EffectModel::SetProvider {
                provider,
                owner: owner@,
                repo: repo@,
            },
            Effect::LoadPullRequestsIfEmpty => EffectModel::LoadPullRequestsIfEmpty,
            Effect::RefreshPullRequests => EffectModel::RefreshPullRequests,
            Effect::CreateReviewView { source, pull_request } => EffectModel::CreateReviewView {
                source: source@,
                pull_request: pull_request@,
            },
            Effect::SetReviewTreeDiff => EffectModel::SetReviewTreeDiff,
            Effect::ToggleReviewTreeView => EffectModel::ToggleReviewTreeView,
            Effect::ToggleFileListTreeView => EffectModel::ToggleFileListTreeView,
            Effect::DeployMergeDiff { base_ref, head_ref, project_path } =>
                EffectModel::DeployMergeDiff {
                base_ref: base_ref@,
                head_ref: opt_view(head_ref),
                project_path: project_path@,
            },
            Effect::ShowBranchDiff => EffectModel::ShowBranchDiff,
            Effect::OpenPathPreview {
                project_path,
                pane,
                focus_item,
                allow_preview,
                activate,
            } => EffectModel::OpenPathPreview {
                project_path: project_path@,
                pane,
                focus_item,
                allow_preview,
                activate,
            },
        }
    }
}

/// Collects what the application is asked to do, in order.
pub struct Context {
    effects: Vec<Effect>,
}

impl View for Context {
    type V = Seq<EffectModel>;

    closed spec fn view(&self) -> Seq<EffectModel> {
        seq_view(self.effects@)
    }
}

impl Context {
    /// A context in which nothing is asked yet.
    pub fn new() -> (cx: Context)
        ensures
            cx@ == Seq::<EffectModel>::empty(),
    {
        let cx = Context { effects: Vec::new() };
        assert(cx@ =~= Seq::empty());
        cx
    }

    /// Asks for one thing more.
    pub fn push(&mut self, effect: Effect)
        ensures
            final(self)@ == old(self)@.push(effect@),
    {
        self.effects.push(effect);
        assert(self@ =~= old(self)@.push(effect@));
    }

    /// Asks for something to be drawn anew.
    pub fn notify(&mut self, entity: Entity)
        ensures
            final(self)@ == old(self)@.push(EffectModel::Notify(entity)),
    {
        self.push(Effect::Notify(entity));
    }

    /// Asks for an event of the file list to be handed on.
    pub fn emit(&mut self, event: FileListEvent)
        ensures
            final(self)@ == old(self)@.push(EffectModel::Emit(event@)),
    {
        self.push(Effect::Emit(event));
    }

    /// Everything asked so far, after which the context is as new.
    pub fn take_effects(&mut self) -> (effects: Vec<Effect>)
        ensures
            seq_view(effects@) == old(self)@,
            final(self)@ == Seq::<EffectModel>::empty(),
    {
        let mut effects: Vec<Effect> = Vec::new();
        std::mem::swap(&mut effects, &mut self.effects);
        assert(self@ =~= Seq::empty());
        effects
    }
}

} // verus!
