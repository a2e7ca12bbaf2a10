//! What holds of the panel over more than one event.
use crate::effects::{
    DiffTreeTypeModel, EffectModel, Entity, FileListEventModel, ProjectPathModel, ProviderId,
    PullRequestModel,
};
use crate::file_list::{law_opened_twice, FileListModel};
use crate::panel_model::{
    acted, action_effects, next_task, FileListActionModel, PendingActionModel, ReviewPanelModel,
    ReviewViewModel,
};
use crate::recent_reviews::{law_recorded_first, law_recorded_twice, RecentReviewModel};
use crate::tree_diff::{
    is_listing, law_listing_len, law_listing_unique, listing, EntryModel, TreeDiffStatus,
};
use vstd::prelude::*;

verus! {

/// Where the list of pull requests or the file list is to be shown, it is shown, never a message
/// in its place.
pub proof fn law_shown_list_exists(panel: ReviewPanelModel)
    requires
        panel.wf(),
        panel.active_view is FileList || panel.active_view is PullRequestList,
    ensures
        panel.active_view is FileList ==> panel.body() is FileList,
        panel.active_view is PullRequestList ==> panel.body() is PullRequestList,
{
}

/// What waits to be done is done once: drawing the panel again does nothing more.
pub proof fn law_flushed_once(
    panel: ReviewPanelModel,
    workspace_open: bool,
    project_path: Option<ProjectPathModel>,
    workspace_open_again: bool,
    project_path_again: Option<ProjectPathModel>,
)
    ensures
        ({
            let drawn = panel.flushed(workspace_open, project_path).panel;
            &&& drawn.pending_action is None
            &&& drawn.flushed(workspace_open_again, project_path_again) == drawn.still()
        }),
{
}

/// Drawing the panel asks for one thing at most, and changes nothing but the pending action and
/// the view of the pull request.
pub proof fn law_flushed_frame(
    panel: ReviewPanelModel,
    workspace_open: bool,
    project_path: Option<ProjectPathModel>,
)
    ensures
        ({
            let step = panel.flushed(workspace_open, project_path);
            &&& step.effects.len() <= 1
            &&& step.panel == (ReviewPanelModel {
                pending_action: None,
                review_view: step.panel.review_view,
                ..panel
            })
        }),
{
}

/// A pull request that is opened is on the screen once the panel is drawn, with the source that
/// the panel knows by then.
pub proof fn law_selected_pull_request_is_shown(
    panel: ReviewPanelModel,
    pr: PullRequestModel,
    workspace_open: bool,
    project_path: Option<ProjectPathModel>,
)
    ensures
        ({
            let selected = panel.pull_request_selected(pr).panel;
            let drawn = selected.flushed(workspace_open, project_path).panel;
            &&& drawn.selected_pr == Some(pr)
            &&& drawn.review_view == Some(
                ReviewViewModel { source: panel.source(), pull_request: pr },
            )
            &&& drawn.body() is ReviewView
        }),
{
}

/// Once the head of an opened pull request was fetched, the branches of the pull request are
/// compared.
pub proof fn law_fetched_pull_request_is_compared(panel: ReviewPanelModel, pr: PullRequestModel)
    requires
        panel.active_repository is Some,
    ensures
        panel.pull_request_selected(pr).panel.ref_fetched(
            next_task(panel.pr_ref_fetch_task),
            true,
        ).effects == seq![
            EffectModel::LoadDiff {
                repository: panel.active_repository->0,
                diff_type: DiffTreeTypeModel::MergeBase { base: pr.base_ref, head: pr.head_ref },
            },
        ],
{
}

/// The end of a fetch leads to nothing once another pull request was opened.
pub proof fn law_superseded_fetch_ignored(
    panel: ReviewPanelModel,
    first: PullRequestModel,
    second: PullRequestModel,
    git_has_run: bool,
)
    requires
        panel.active_repository is Some,
    ensures
        ({
            let selected = panel.pull_request_selected(first).panel.pull_request_selected(
                second,
            ).panel;
            selected.ref_fetched(next_task(panel.pr_ref_fetch_task), git_has_run)
                == selected.still()
        }),
{
}

/// A file of an opened pull request is shown between the base of the pull request and its head
/// commit.
pub proof fn law_pull_request_file_diff(
    panel: ReviewPanelModel,
    pr: PullRequestModel,
    path: Seq<char>,
    project_path: ProjectPathModel,
)
    requires
        panel.selected_pr == Some(pr),
        panel.active_repository is Some,
    ensures
        panel.file_diff_opened(path).panel.pending_path() == Some(path),
        panel.file_diff_opened(path).panel.flushed(true, Some(project_path)).effects == seq![
            EffectModel::DeployMergeDiff {
                base_ref: pr.base_ref,
                head_ref: Some(pr.head_sha),
                project_path,
            },
        ],
{
}

/// The last of the actions that wait for the panel to be drawn replaces the ones before it.
pub proof fn law_last_pending_action_wins(
    panel: ReviewPanelModel,
    first: Seq<char>,
    second: Seq<char>,
)
    ensures
        panel.file_diff_opened(first).panel.local_file_opened(second).panel.pending_action == Some(
            PendingActionModel::OpenLocal(second),
        ),
        panel.local_file_opened(first).panel.file_diff_opened(second).panel.pending_action == Some(
            PendingActionModel::OpenDiff(second),
        ),
{
}

/// A diff that was loaded for two known branches makes them the first of the reviews opened
/// lately, with the pull request and the number of files.
pub proof fn law_loaded_diff_is_remembered(
    panel: ReviewPanelModel,
    diff: Map<Seq<char>, TreeDiffStatus>,
)
    requires
        panel.base_branch is Some,
        panel.head_branch is Some,
    ensures
        ({
            let reviews = panel.diff_loaded(diff).panel.recent_reviews;
            &&& reviews.len() > 0
            &&& reviews[0] == (RecentReviewModel {
                base_branch: panel.base_branch->0,
                head_branch: panel.head_branch->0,
                file_count: diff.dom().len() as usize,
                pull_request: panel.selected_pr,
            })
        }),
{
    law_recorded_first(
        panel.recent_reviews,
        RecentReviewModel {
            base_branch: panel.base_branch->0,
            head_branch: panel.head_branch->0,
            file_count: diff.dom().len() as usize,
            pull_request: panel.selected_pr,
        },
    );
}

/// To load the same diff again leaves the panel as it is after the first time.
pub proof fn law_loaded_diff_twice(
    panel: ReviewPanelModel,
    diff: Map<Seq<char>, TreeDiffStatus>,
)
    requires
        panel.wf(),
    ensures
        ({
            let once = panel.diff_loaded(diff).panel;
            once.diff_loaded(diff).panel == once
        }),
{
    if panel.base_branch is Some && panel.head_branch is Some {
        law_recorded_twice(
            panel.recent_reviews,
            RecentReviewModel {
                base_branch: panel.base_branch->0,
                head_branch: panel.head_branch->0,
                file_count: diff.dom().len() as usize,
                pull_request: panel.selected_pr,
            },
        );
    }
}

/// A diff that comes while a pull request is viewed does not take the user away from it, and
/// neither does a diff without files take the user anywhere.
pub proof fn law_loaded_diff_keeps_view(
    panel: ReviewPanelModel,
    diff: Map<Seq<char>, TreeDiffStatus>,
)
    requires
        panel.active_view is ReviewThread || diff.dom().len() == 0,
    ensures
        panel.diff_loaded(diff).panel.active_view == panel.active_view,
        panel.diff_loaded(diff).panel.file_list == panel.file_list,
{
}

/// Outside of the view of a pull request the files of a diff are shown in their order, with
/// nothing selected and nothing viewed.
pub proof fn law_loaded_diff_is_listed(
    panel: ReviewPanelModel,
    diff: Map<Seq<char>, TreeDiffStatus>,
    entries: Seq<EntryModel>,
)
    requires
        !(panel.active_view is ReviewThread),
        is_listing(diff, entries),
        entries.len() > 0,
    ensures
        ({
            let loaded = panel.diff_loaded(diff).panel;
            &&& loaded.active_view is FileList
            &&& loaded.file_list == Some(
                FileListModel {
                    base_branch: panel.base_branch,
                    head_branch: panel.head_branch,
                    entries,
                    viewed_files: Set::empty(),
                    selected_entry: None,
                },
            )
        }),
{
    law_listing_len(diff, entries);
    law_listing_unique(diff, entries, listing(diff));
}

/// A click on a file marks it in the list at once; that the panel marks the file again when the
/// event reaches it changes nothing in the list.
pub proof fn law_click_marks_once(panel: ReviewPanelModel, list: FileListModel, path: Seq<char>)
    requires
        panel.file_list == Some(list),
    ensures
        ({
            let clicked = panel.file_list_acted(FileListActionModel::Click(path));
            let told = clicked.panel.file_diff_opened(path).panel;
            &&& clicked.effects == seq![
                EffectModel::Emit(FileListEventModel::OpenFileDiff(path)),
                EffectModel::Notify(Entity::FileList),
            ]
            &&& told.file_list == Some(list.opened(path))
            &&& told.pending_action == Some(PendingActionModel::OpenDiff(path))
        }),
{
    law_opened_twice(list, path);
}

/// Nobody is asked to open a file that the diff deletes.
pub proof fn law_deleted_file_not_opened(list: FileListModel)
    requires
        list.wf(),
        list.selected_entry matches Some(i) && list.entries[i as int].status is Deleted,
    ensures
        action_effects(list, FileListActionModel::OpenLocalFile).len() == 0,
        acted(list, FileListActionModel::OpenLocalFile) == list,
{
}

/// What the user does in the file list leaves its branches and its files as they are, and viewed
/// files stay viewed.
pub proof fn law_file_list_actions_frame(list: FileListModel, action: FileListActionModel)
    ensures
        acted(list, action).base_branch == list.base_branch,
        acted(list, action).head_branch == list.head_branch,
        acted(list, action).entries == list.entries,
        list.viewed_files.subset_of(acted(list, action).viewed_files),
{
}

/// Leaving the view of a pull request forgets the pull request and shows the list.
pub proof fn law_review_left(panel: ReviewPanelModel)
    ensures
        panel.review_left().panel.selected_pr is None,
        panel.review_left().panel.review_view is None,
        panel.review_left().panel.body() is PullRequestList,
{
}

/// The button for a new review shows the list of pull requests, whatever the panel showed before.
pub proof fn law_new_review_button(
    panel: ReviewPanelModel,
    file_list_tree: bool,
    review_tree: bool,
)
    ensures
        ({
            let step = panel.menu_chosen(
                panel.toolbar(file_list_tree, review_tree).new_review.action,
            );
            &&& step == panel.pull_request_list_shown()
            &&& step.panel.body() is PullRequestList
        }),
{
}

/// The list of pull requests is made once: to show it again makes no other.
pub proof fn law_pull_request_list_made_once(panel: ReviewPanelModel)
    ensures
        ({
            let shown = panel.pull_request_list_shown().panel;
            let again = shown.pull_request_list_shown();
            &&& again.panel == shown
            &&& again.effects == seq![
                EffectModel::LoadPullRequestsIfEmpty,
                EffectModel::Notify(Entity::Panel),
            ]
        }),
{
}

/// A review that was opened lately comes back with its own branches where it was no pull request,
/// and as the pull request where it was one.
pub proof fn law_recent_review_comes_back(panel: ReviewPanelModel, review: RecentReviewModel)
    ensures
        ({
            let opened = panel.recent_review_opened(
                review.base_branch,
                review.head_branch,
                review.pull_request,
            ).panel;
            &&& opened.selected_pr == review.pull_request
            &&& review.pull_request is None ==> opened.base_branch == Some(review.base_branch)
                && opened.head_branch == Some(review.head_branch) && opened.review_view is None
            &&& review.pull_request matches Some(pr) ==> opened.base_branch == Some(pr.base_ref)
                && opened.head_branch == Some(pr.head_ref) && opened.active_view is ReviewThread
        }),
{
}

/// A provider that comes after the list of pull requests was made reaches the list, once the
/// remote is known.
pub proof fn law_late_provider_reaches_list(
    panel: ReviewPanelModel,
    provider: ProviderId,
)
    requires
        panel.wf(),
        panel.pull_request_list is Some,
        panel.remote_owner is Some,
    ensures
        ({
            let resolved = panel.provider_resolved(provider).panel;
            &&& resolved.provider == Some(provider)
            &&& resolved.pull_request_list == Some(resolved.source())
        }),
{
}

} // verus!
