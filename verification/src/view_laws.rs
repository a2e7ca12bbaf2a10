//! What the panel shows, and what the values that cross its border stand for.
use crate::effects::{
    DiffTreeType, DiffTreeTypeModel, Effect, EffectModel, FileListEvent, FileListEventModel,
    ProjectPath, PullRequestInfo, PullRequestSource,
};
use crate::elements::{
    ActionButton, IconName, MenuAction, MenuActionModel, MenuButton, MenuItem, MenuItemModel,
};
use crate::panel_model::{
    ActiveView, FileListActionModel, GitStoreEventModel, PanelBodyModel, PendingActionModel,
    ReviewPanelModel,
};
use crate::recent_reviews::recent_menu;
use crate::review_panel::{
    Branch, FileListAction, GitStoreEvent, PanelBody, PanelView, PendingAction, ReviewView, Toolbar,
};
use crate::text::{opt_view, seq_view};
use vstd::prelude::*;

verus! {

/// Below the toolbar stands what the panel is to show, where it exists; in place of a list or a
/// view that does not, it says that it is loading.
pub proof fn law_panel_body(panel: ReviewPanelModel)
    ensures
        panel.active_view == ActiveView::Empty ==> panel.body() == PanelBodyModel::Message(
            "No review selected"@,
        ),
        panel.active_view == ActiveView::Configuration ==> panel.body() == PanelBodyModel::Message(
            "Configuration (coming soon)"@,
        ),
        panel.active_view == ActiveView::PullRequestList ==> (panel.body()
            == PanelBodyModel::PullRequestList <==> panel.pull_request_list is Some),
        panel.active_view == ActiveView::PullRequestList && panel.pull_request_list is None
            ==> panel.body() == PanelBodyModel::Message("Loading..."@),
        panel.active_view == ActiveView::ReviewThread ==> (panel.body()
            == PanelBodyModel::ReviewView <==> panel.review_view is Some),
        panel.active_view == ActiveView::ReviewThread && panel.review_view is None ==> panel.body()
            == PanelBodyModel::Message("Loading..."@),
        panel.active_view == ActiveView::FileList && panel.file_list is Some ==> panel.body()
            == PanelBodyModel::FileList(panel.file_list->0.shown()),
        panel.active_view == ActiveView::FileList && panel.file_list is None ==> panel.body()
            == PanelBodyModel::Message("Loading..."@),
{
}

/// The toolbar looks the same whatever the panel holds, but for the two menus: the reviews opened
/// lately, and the options for what is shown.
pub proof fn law_panel_toolbar(panel: ReviewPanelModel, file_list_tree: bool, review_tree: bool)
    ensures
        ({
            let toolbar = panel.toolbar(file_list_tree, review_tree);
            &&& toolbar.title == "Review"@
            &&& toolbar.new_review.id == "new-review"@
            &&& toolbar.new_review.icon == IconName::Plus
            &&& toolbar.new_review.tooltip == "New Review"@
            &&& toolbar.new_review.action == MenuActionModel::NewReview
            &&& toolbar.recent_reviews.id == "review-nav-menu"@
            &&& toolbar.recent_reviews.icon == IconName::MenuAltTemp
            &&& toolbar.recent_reviews.tooltip == "Recent Reviews"@
            &&& toolbar.recent_reviews.menu == recent_menu(panel.recent_reviews)
            &&& toolbar.options.id == "review-options-menu"@
            &&& toolbar.options.icon == IconName::EllipsisVertical
            &&& toolbar.options.tooltip == "Options"@
            &&& toolbar.options.menu == panel.options_menu(file_list_tree, review_tree)
        }),
{
}

/// A pull request, a file of the project, a source of pull requests and a branch stand for what
/// their fields hold.
pub proof fn law_value_views(
    pr: PullRequestInfo,
    project_path: ProjectPath,
    source: PullRequestSource,
    branch: Branch,
    view: ReviewView,
)
    ensures
        pr@.id == pr.id,
        pr@.number == pr.number,
        pr@.base_ref == pr.base_ref@,
        pr@.head_ref == pr.head_ref@,
        pr@.head_sha == pr.head_sha@,
        project_path@.worktree_id == project_path.worktree_id,
        project_path@.path == project_path.path@,
        source@.provider == source.provider,
        source@.owner == opt_view(source.owner),
        source@.repo == opt_view(source.repo),
        branch@.ref_name == branch.ref_name@,
        branch@.is_head == branch.is_head,
        view@.source == view.source@,
        view@.pull_request == view.pull_request@,
{
}

/// An event stands for what happened, with the same path, repository and URL.
pub proof fn law_event_views(
    told: FileListEvent,
    changed: GitStoreEvent,
    action: FileListAction,
    pending: PendingAction,
)
    ensures
        told matches FileListEvent::OpenFileDiff(path) ==> told@
            == FileListEventModel::OpenFileDiff(path@),
        told matches FileListEvent::OpenLocalFile(path) ==> told@
            == FileListEventModel::OpenLocalFile(path@),
        changed matches GitStoreEvent::ActiveRepositoryChanged { active_repository, remote_url }
            ==> changed@ == (GitStoreEventModel::ActiveRepositoryChanged {
            active_repository,
            remote_url: opt_view(remote_url),
        }),
        changed is BranchChanged <==> changed@ == GitStoreEventModel::BranchChanged,
        changed matches GitStoreEvent::RepositoryUpdated { remote_url } ==> changed@ == (
        GitStoreEventModel::RepositoryUpdated { remote_url: opt_view(remote_url) }),
        changed is Other <==> changed@ == GitStoreEventModel::Other,
        action is SelectNext <==> action@ == FileListActionModel::SelectNext,
        action is SelectPrevious <==> action@ == FileListActionModel::SelectPrevious,
        action is Confirm <==> action@ == FileListActionModel::Confirm,
        action is OpenLocalFile <==> action@ == FileListActionModel::OpenLocalFile,
        action matches FileListAction::Click(path) ==> action@ == FileListActionModel::Click(path@),
        pending matches PendingAction::OpenDiff(path) ==> pending@ == PendingActionModel::OpenDiff(
            path@,
        ),
        pending matches PendingAction::OpenLocal(path) ==> pending@
            == PendingActionModel::OpenLocal(path@),
        pending matches PendingAction::SelectPullRequest(pr) ==> pending@
            == PendingActionModel::SelectPullRequest(pr@),
{
}

/// Something that is asked for stands for itself, with what it is asked with.
pub proof fn law_effect_view(effect: Effect)
    ensures
        effect matches Effect::Notify(entity) ==> effect@ == EffectModel::Notify(entity),
        effect matches Effect::Emit(event) ==> effect@ == EffectModel::Emit(event@),
        effect is ResolveProvider <==> effect@ is ResolveProvider,
        effect matches Effect::LoadBranches { repository, include_remote_name } ==> effect@ == (
        EffectModel::LoadBranches { repository, include_remote_name }),
        effect matches Effect::LoadDiff {
            repository,
            diff_type: DiffTreeType::MergeBase { base, head },
        } ==> effect@ == (EffectModel::LoadDiff {
            repository,
            diff_type: DiffTreeTypeModel::MergeBase { base: base@, head: head@ },
        }),
        effect matches Effect::FetchPullRequestRef { repository, task, pr_number, program, args }
            ==> effect@ == (EffectModel::FetchPullRequestRef {
            repository,
            task,
            pr_number,
            program: program@,
            args: seq_view(args@),
        }),
        effect is CreateFileList <==> effect@ is CreateFileList,
        effect matches Effect::CreatePullRequestList { source } ==> effect@ == (
        EffectModel::CreatePullRequestList { source: source@ }),
        effect matches Effect::SetProvider { provider, owner, repo } ==> effect@ == (
        EffectModel::SetProvider { provider, owner: owner@, repo: repo@ }),
        effect is LoadPullRequestsIfEmpty <==> effect@ is LoadPullRequestsIfEmpty,
        effect is RefreshPullRequests <==> effect@ is RefreshPullRequests,
        effect matches Effect::CreateReviewView { source, pull_request } ==> effect@ == (
        EffectModel::CreateReviewView { source: source@, pull_request: pull_request@ }),
        effect is SetReviewTreeDiff <==> effect@ is SetReviewTreeDiff,
        effect is ToggleReviewTreeView <==> effect@ is ToggleReviewTreeView,
        effect is ToggleFileListTreeView <==> effect@ is ToggleFileListTreeView,
        effect matches Effect::DeployMergeDiff { base_ref, head_ref, project_path } ==> effect@ == (
        EffectModel::DeployMergeDiff {
            base_ref: base_ref@,
            head_ref: opt_view(head_ref),
            project_path: project_path@,
        }),
        effect is ShowBranchDiff <==> effect@ is ShowBranchDiff,
        effect matches Effect::OpenPathPreview {
            project_path,
            pane,
            focus_item,
            allow_preview,
            activate,
        } ==> effect@ == (EffectModel::OpenPathPreview {
            project_path: project_path@,
            pane,
            focus_item,
            allow_preview,
            activate,
        }),
{
}

/// A menu entry stands for what it says and does.
pub proof fn law_menu_views(action: MenuAction, item: MenuItem)
    ensures
        action is Nothing <==> action@ is Nothing,
        action is NewReview <==> action@ is NewReview,
        action is Refresh <==> action@ is Refresh,
        action matches MenuAction::OpenRecentReview { base, head, pull_request } ==> action@ == (
        MenuActionModel::OpenRecentReview {
            base: base@,
            head: head@,
            pull_request: opt_view(pull_request),
        }),
        action matches MenuAction::ToggleTreeView { in_review } ==> action@ == (
        MenuActionModel::ToggleTreeView { in_review }),
        item matches MenuItem::Header(label) ==> item@ == MenuItemModel::Header(label@),
        item is Separator <==> item@ is Separator,
        item matches MenuItem::Entry { label, action } ==> item@ == (MenuItemModel::Entry {
            label: label@,
            action: action@,
        }),
{
}

/// What is on the screen stands for what its parts hold.
pub proof fn law_screen_views(
    button: ActionButton,
    menu: MenuButton,
    toolbar: Toolbar,
    body: PanelBody,
    view: PanelView,
)
    ensures
        button@.id == button.id@,
        button@.icon == button.icon,
        button@.tooltip == button.tooltip@,
        button@.action == button.action@,
        menu@.id == menu.id@,
        menu@.icon == menu.icon,
        menu@.tooltip == menu.tooltip@,
        menu@.menu == seq_view(menu.menu@),
        toolbar@.title == toolbar.title@,
        toolbar@.new_review == toolbar.new_review@,
        toolbar@.recent_reviews == toolbar.recent_reviews@,
        toolbar@.options == toolbar.options@,
        body matches PanelBody::Message(message) ==> body@ == PanelBodyModel::Message(message@),
        body is PullRequestList <==> body@ is PullRequestList,
        body is ReviewView <==> body@ is ReviewView,
        body matches PanelBody::FileList(list) ==> body@ == PanelBodyModel::FileList(list@),
        view@.toolbar == view.toolbar@,
        view@.body == view.body@,
{
}

} // verus!
