//! What each event does to the panel, whatever state the panel is in: what it is then, down to
//! what stays as it was, and what it asks for.
use crate::effects::{
    DiffTreeTypeModel, EffectModel, Entity, FileListEventModel, ProjectPathModel, ProviderId,
    PullRequestModel, PullRequestSourceModel, RepositoryId,
};
use crate::elements::{MenuActionModel, MenuItemModel};
use crate::file_list::FileListModel;
use crate::github_remote::github_remote;
use crate::panel_model::{
    head_of, next_task, ActiveView, BranchModel, FileListActionModel, GitStoreEventModel,
    PendingActionModel, ReviewPanelModel, ReviewViewModel, Step,
};
use crate::recent_reviews::{is_recent_list, recorded, RecentReviewModel};
use crate::review_panel::took;
use crate::text::decimal;
use crate::tree_diff::{law_listing_complete, listing, TreeDiffStatus};
use vstd::prelude::*;

verus! {

/// An operation takes a panel through a step where it leaves the panel of the step behind and
/// asks for what the step asks for, after all that was asked for before.
pub proof fn law_step_taken(
    step: Step,
    panel: ReviewPanelModel,
    before: Seq<EffectModel>,
    after: Seq<EffectModel>,
)
    ensures
        took(step, panel, before, after) <==> panel == step.panel && after.len() == before.len()
            + step.effects.len() && (forall|i: int|
            0 <= i < before.len() ==> #[trigger] after[i] == before[i]) && (forall|i: int|
            before.len() <= i < after.len() ==> #[trigger] after[i] == step.effects[i
                - before.len()]),
{
    let whole = before + step.effects;
    if panel == step.panel && after.len() == before.len() + step.effects.len() && (forall|i: int|
        0 <= i < before.len() ==> #[trigger] after[i] == before[i]) && (forall|i: int|
        before.len() <= i < after.len() ==> #[trigger] after[i] == step.effects[i - before.len()]) {
        assert(after =~= whole);
    }
}

/// A panel is valid where its file list is, where the reviews opened lately are, where a list that
/// is shown exists, and where the remote is known as a whole or not at all.
pub proof fn law_panel_valid(panel: ReviewPanelModel)
    ensures
        panel.wf() <==> {
            &&& panel.file_list is Some ==> panel.file_list->0.wf()
            &&& is_recent_list(panel.recent_reviews)
            &&& panel.active_view == ActiveView::FileList ==> panel.file_list is Some
            &&& panel.active_view == ActiveView::PullRequestList ==> panel.pull_request_list is Some
            &&& (panel.remote_owner is Some <==> panel.remote_repo is Some)
        },
{
}

/// To ask for nothing leaves the panel as it is.
pub proof fn law_still(panel: ReviewPanelModel)
    ensures
        panel.still().panel == panel,
        panel.still().effects == Seq::<EffectModel>::empty(),
{
}

/// A new panel knows nothing but its repository and, where the repository's remote is on GitHub,
/// the owner and the repository there. It asks for a provider in that case only, and then for the
/// branches where there is a repository.
pub proof fn law_created(repository: RepositoryId, url: Seq<char>)
    ensures
        ({
            let blank = ReviewPanelModel {
                active_repository: None,
                base_branch: None,
                head_branch: None,
                tree_diff: None,
                file_list: None,
                review_view: None,
                active_view: ActiveView::Empty,
                recent_reviews: Seq::empty(),
                pull_request_list: None,
                provider: None,
                remote_owner: None,
                remote_repo: None,
                selected_pr: None,
                pr_ref_fetch_task: None,
                pending_action: None,
            };
            let opened = ReviewPanelModel { active_repository: Some(repository), ..blank };
            let load = EffectModel::LoadBranches { repository, include_remote_name: false };
            let with_url = ReviewPanelModel::created(Some(repository), Some(url));
            let without_url = ReviewPanelModel::created(Some(repository), None);
            let without_repository = ReviewPanelModel::created(None, Some(url));
            let with_nothing = ReviewPanelModel::created(None, None);
            &&& without_repository.panel == blank && without_repository.effects.len() == 0
            &&& with_nothing.panel == blank && with_nothing.effects.len() == 0
            &&& without_url.panel == opened && without_url.effects == seq![load]
            &&& github_remote(url) is None ==> with_url.panel == opened && with_url.effects == seq![
                load,
            ]
            &&& github_remote(url) matches Some((owner, repo)) ==> with_url.panel == (
            ReviewPanelModel { remote_owner: Some(owner), remote_repo: Some(repo), ..opened })
                && with_url.effects == seq![EffectModel::ResolveProvider, load]
        }),
{
}

/// A provider is asked for where a repository is open and its remote is on GitHub, whatever was
/// known of a remote or a provider before; the owner and the repository are those of the URL.
pub proof fn law_provider_initialized(panel: ReviewPanelModel, url: Seq<char>)
    ensures
        panel.provider_initialized(None) == panel.still(),
        panel.active_repository is None ==> panel.provider_initialized(Some(url)) == panel.still(),
        github_remote(url) is None ==> panel.provider_initialized(Some(url)) == panel.still(),
        panel.active_repository is Some ==> (github_remote(url) matches Some((owner, repo)) ==> {
            let step = panel.provider_initialized(Some(url));
            &&& step.effects == seq![EffectModel::ResolveProvider]
            &&& step.panel == (ReviewPanelModel {
                remote_owner: Some(owner),
                remote_repo: Some(repo),
                ..panel
            })
        }),
{
}

/// When another repository is open the panel asks anew for what a new panel asks for, and to be
/// drawn. Nothing that it holds is dropped, not even the remote of the repository before.
pub proof fn law_repository_changed(
    panel: ReviewPanelModel,
    repository: RepositoryId,
    url: Seq<char>,
)
    ensures
        ({
            let load = EffectModel::LoadBranches { repository, include_remote_name: false };
            let notify = EffectModel::Notify(Entity::Panel);
            let moved = ReviewPanelModel { active_repository: Some(repository), ..panel };
            let closed = ReviewPanelModel { active_repository: None, ..panel };
            let to_url = panel.git_store_changed(
                GitStoreEventModel::ActiveRepositoryChanged {
                    active_repository: Some(repository),
                    remote_url: Some(url),
                },
            );
            let to_no_url = panel.git_store_changed(
                GitStoreEventModel::ActiveRepositoryChanged {
                    active_repository: Some(repository),
                    remote_url: None,
                },
            );
            let to_none = panel.git_store_changed(
                GitStoreEventModel::ActiveRepositoryChanged {
                    active_repository: None,
                    remote_url: Some(url),
                },
            );
            let to_nothing = panel.git_store_changed(
                GitStoreEventModel::ActiveRepositoryChanged {
                    active_repository: None,
                    remote_url: None,
                },
            );
            &&& to_none.panel == closed && to_none.effects == seq![notify]
            &&& to_nothing.panel == closed && to_nothing.effects == seq![notify]
            &&& to_no_url.panel == moved && to_no_url.effects == seq![load, notify]
            &&& github_remote(url) is None ==> to_url.panel == moved && to_url.effects == seq![
                load,
                notify,
            ]
            &&& github_remote(url) matches Some((owner, repo)) ==> to_url.panel == (
            ReviewPanelModel { remote_owner: Some(owner), remote_repo: Some(repo), ..moved })
                && to_url.effects == seq![EffectModel::ResolveProvider, load, notify]
        }),
{
}

/// When another branch is checked out the branches of the open repository are asked for, and
/// nothing else happens.
pub proof fn law_branch_changed(panel: ReviewPanelModel)
    ensures
        ({
            let step = panel.git_store_changed(GitStoreEventModel::BranchChanged);
            &&& step.panel == panel
            &&& panel.active_repository matches Some(repository) ==> step.effects == seq![
                EffectModel::LoadBranches { repository, include_remote_name: false },
            ]
            &&& panel.active_repository is None ==> step.effects.len() == 0
        }),
{
}

/// When something else changed in a repository a provider is asked for, unless there is one; no
/// other event does anything.
pub proof fn law_repository_updated(panel: ReviewPanelModel, url: Seq<char>, no_url: bool)
    ensures
        ({
            let remote_url = if no_url {
                None
            } else {
                Some(url)
            };
            let step = panel.git_store_changed(
                GitStoreEventModel::RepositoryUpdated { remote_url },
            );
            &&& panel.provider is Some || panel.active_repository is None || no_url
                || github_remote(url) is None ==> step.panel == panel && step.effects.len() == 0
            &&& panel.provider is None && panel.active_repository is Some && !no_url ==> (
            github_remote(url) matches Some((owner, repo)) ==> step.panel == (ReviewPanelModel {
                remote_owner: Some(owner),
                remote_repo: Some(repo),
                ..panel
            }) && step.effects == seq![EffectModel::ResolveProvider])
        }),
        panel.git_store_changed(GitStoreEventModel::Other).panel == panel,
        panel.git_store_changed(GitStoreEventModel::Other).effects.len() == 0,
{
}

/// A provider replaces the one before. The list of pull requests gets it together with the remote,
/// where both the list and the remote are there.
pub proof fn law_provider_resolved(panel: ReviewPanelModel, provider: ProviderId)
    requires
        panel.wf(),
    ensures
        ({
            let step = panel.provider_resolved(provider);
            let kept = ReviewPanelModel { provider: Some(provider), ..panel };
            let notify = EffectModel::Notify(Entity::Panel);
            &&& panel.pull_request_list is None || panel.remote_owner is None ==> step.panel == kept
                && step.effects == seq![notify]
            &&& panel.pull_request_list is Some && panel.remote_owner is Some ==> step.panel == (
            ReviewPanelModel {
                pull_request_list: Some(
                    PullRequestSourceModel {
                        provider: Some(provider),
                        owner: panel.remote_owner,
                        repo: panel.remote_repo,
                    },
                ),
                ..kept
            }) && step.effects == seq![
                EffectModel::SetProvider {
                    provider,
                    owner: panel.remote_owner->0,
                    repo: panel.remote_repo->0,
                },
                notify,
            ]
        }),
{
}

/// The branches are asked for where a repository is open, and nothing changes.
pub proof fn law_branches_requested(panel: ReviewPanelModel)
    ensures
        panel.branches_requested().panel == panel,
        panel.active_repository is None ==> panel.branches_requested().effects.len() == 0,
        panel.active_repository matches Some(repository) ==> panel.branches_requested().effects
            == seq![EffectModel::LoadBranches { repository, include_remote_name: false }],
{
}

/// The diff of the head against the base is asked for where the repository and both branches are
/// known, whatever else the panel holds, and nothing changes.
pub proof fn law_diff_requested(panel: ReviewPanelModel)
    ensures
        panel.diff_requested().panel == panel,
        panel.active_repository is None || panel.base_branch is None || panel.head_branch is None
            ==> panel.diff_requested().effects.len() == 0,
        panel.active_repository is Some && panel.base_branch is Some && panel.head_branch is Some
            ==> panel.diff_requested().effects == seq![
            EffectModel::LoadDiff {
                repository: panel.active_repository->0,
                diff_type: DiffTreeTypeModel::MergeBase {
                    base: panel.base_branch->0,
                    head: panel.head_branch->0,
                },
            },
        ],
{
}

/// The default branch is the base afterwards, whatever base was known before.
pub proof fn law_default_branch_is_base(panel: ReviewPanelModel, default_branch: Seq<char>)
    ensures
        panel.default_branch_found(default_branch).panel == (ReviewPanelModel {
            base_branch: Some(default_branch),
            ..panel
        }),
        panel.default_branch_found(default_branch).effects == seq![
            EffectModel::Notify(Entity::Panel),
        ],
{
}

/// The head among some branches is the first that is checked out; where none is, there is no head.
pub proof fn law_head_of_branches(branches: Seq<BranchModel>, i: int)
    ensures
        0 <= i < branches.len() && branches[i].is_head && (forall|j: int|
            0 <= j < i ==> !(#[trigger] branches[j]).is_head) ==> head_of(branches) == Some(
            branches[i].ref_name,
        ),
        (forall|j: int| 0 <= j < branches.len() ==> !(#[trigger] branches[j]).is_head) <==> head_of(
            branches,
        ) is None,
    decreases branches.len(),
{
    if branches.len() > 0 {
        let rest = branches.drop_first();
        law_head_of_branches(rest, i - 1);
        if forall|j: int| 0 <= j < branches.len() ==> !(#[trigger] branches[j]).is_head {
            assert forall|j: int| 0 <= j < rest.len() implies !(#[trigger] rest[j]).is_head by {
                assert(rest[j] == branches[j + 1]);
            }
        }
        if !branches[0].is_head && head_of(branches) is None {
            assert forall|j: int| 0 <= j < branches.len() implies !(
            #[trigger] branches[j]).is_head by {
                if j > 0 {
                    assert(rest[j - 1] == branches[j]);
                }
            }
        }
        if 0 < i < branches.len() && branches[i].is_head && (forall|j: int|
            0 <= j < i ==> !(#[trigger] branches[j]).is_head) {
            assert(rest[i - 1] == branches[i]);
            assert(!branches[0].is_head);
            assert forall|j: int| 0 <= j < i - 1 implies !(#[trigger] rest[j]).is_head by {
                assert(rest[j] == branches[j + 1]);
            }
        }
    }
}

/// The first branch that is checked out is the head afterwards, whatever head was known before.
/// With a repository and a base the diff of this branch against the base is asked for, and in any
/// case the panel is to be drawn.
pub proof fn law_checked_out_branch_is_head(
    panel: ReviewPanelModel,
    branches: Seq<BranchModel>,
    i: int,
)
    requires
        0 <= i < branches.len(),
        branches[i].is_head,
        forall|j: int| 0 <= j < i ==> !(#[trigger] branches[j]).is_head,
    ensures
        ({
            let step = panel.branches_found(branches);
            let notify = EffectModel::Notify(Entity::Panel);
            &&& step.panel == (ReviewPanelModel {
                head_branch: Some(branches[i].ref_name),
                ..panel
            })
            &&& panel.active_repository is Some && panel.base_branch is Some ==> step.effects
                == seq![
                EffectModel::LoadDiff {
                    repository: panel.active_repository->0,
                    diff_type: DiffTreeTypeModel::MergeBase {
                        base: panel.base_branch->0,
                        head: branches[i].ref_name,
                    },
                },
                notify,
            ]
            &&& panel.active_repository is None || panel.base_branch is None ==> step.effects
                == seq![notify]
        }),
{
    law_head_of_branches(branches, i);
}

/// Branches of which none is checked out change nothing and lead to nothing.
pub proof fn law_no_branch_checked_out(panel: ReviewPanelModel, branches: Seq<BranchModel>)
    requires
        forall|j: int| 0 <= j < branches.len() ==> !(#[trigger] branches[j]).is_head,
    ensures
        panel.branches_found(branches).panel == panel,
        panel.branches_found(branches).effects.len() == 0,
{
    law_head_of_branches(branches, 0);
}

/// A diff replaces the one before, and with both branches known the review is recorded with the
/// number of its files and the selected pull request. The view of a pull request, where there is
/// one, gets the diff. Outside of that view a diff with files is shown in a new file list, in
/// place of the list before. Nothing else changes.
pub proof fn law_diff_loaded(panel: ReviewPanelModel, diff: Map<Seq<char>, TreeDiffStatus>)
    requires
        diff.dom().finite(),
        diff.dom().len() <= usize::MAX,
    ensures
        ({
            let step = panel.diff_loaded(diff);
            let reviews = if panel.base_branch is Some && panel.head_branch is Some {
                recorded(
                    panel.recent_reviews,
                    RecentReviewModel {
                        base_branch: panel.base_branch->0,
                        head_branch: panel.head_branch->0,
                        file_count: diff.dom().len() as usize,
                        pull_request: panel.selected_pr,
                    },
                )
            } else {
                panel.recent_reviews
            };
            let kept = ReviewPanelModel {
                tree_diff: Some(diff),
                recent_reviews: reviews,
                ..panel
            };
            let list = FileListModel {
                base_branch: panel.base_branch,
                head_branch: panel.head_branch,
                entries: listing(diff),
                viewed_files: Set::empty(),
                selected_entry: None,
            };
            let shown = panel.active_view != ActiveView::ReviewThread && diff.dom().len() > 0;
            let hand_on = EffectModel::SetReviewTreeDiff;
            let create = EffectModel::CreateFileList;
            let notify = EffectModel::Notify(Entity::Panel);
            &&& !shown ==> step.panel == kept
            &&& shown ==> step.panel == (ReviewPanelModel {
                file_list: Some(list),
                active_view: ActiveView::FileList,
                ..kept
            })
            &&& !shown && panel.review_view is None ==> step.effects.len() == 0
            &&& !shown && panel.review_view is Some ==> step.effects == seq![hand_on]
            &&& shown && panel.review_view is None ==> step.effects == seq![create, notify]
            &&& shown && panel.review_view is Some ==> step.effects == seq![hand_on, create, notify]
        }),
{
    law_listing_complete(diff);
}

/// To show the files makes a new list of the diff and the branches that the panel has, with nothing
/// viewed and nothing selected, and shows it, whatever list was there and whatever was shown.
pub proof fn law_file_list_shown(panel: ReviewPanelModel)
    requires
        panel.tree_diff is Some ==> panel.tree_diff->0.dom().finite(),
    ensures
        ({
            let step = panel.file_list_shown();
            &&& step.effects == seq![
                EffectModel::CreateFileList,
                EffectModel::Notify(Entity::Panel),
            ]
            &&& step.panel == (ReviewPanelModel {
                file_list: Some(
                    FileListModel {
                        base_branch: panel.base_branch,
                        head_branch: panel.head_branch,
                        entries: if panel.tree_diff is Some {
                            listing(panel.tree_diff->0)
                        } else {
                            Seq::empty()
                        },
                        viewed_files: Set::empty(),
                        selected_entry: None,
                    },
                ),
                active_view: ActiveView::FileList,
                ..panel
            })
        }),
{
}

/// Each fetch has a number of its own: the next one differs from the last.
pub proof fn law_next_task(last: u64)
    ensures
        next_task(Some(last)) != last,
        last < u64::MAX ==> next_task(Some(last)) == last + 1,
        next_task(None) == 0,
{
}

/// A pull request that is selected is fetched from the open repository, whether or not a fetch was
/// asked for before: git is run with exactly these arguments, under a number that no fetch before
/// it had just now. The pull request, its branches and what waits to be drawn replace what was
/// there, and nothing else changes.
pub proof fn law_selected_pull_request_is_fetched(panel: ReviewPanelModel, pr: PullRequestModel)
    ensures
        ({
            let step = panel.pull_request_selected(pr);
            let notify = EffectModel::Notify(Entity::Panel);
            let task = step.panel.pr_ref_fetch_task;
            let selected = ReviewPanelModel {
                selected_pr: Some(pr),
                base_branch: Some(pr.base_ref),
                head_branch: Some(pr.head_ref),
                pending_action: Some(PendingActionModel::SelectPullRequest(pr)),
                active_view: ActiveView::ReviewThread,
                ..panel
            };
            &&& panel.active_repository matches Some(repository) ==> {
                &&& task is Some
                &&& task != panel.pr_ref_fetch_task
                &&& task == Some(next_task(panel.pr_ref_fetch_task))
                &&& step.panel == (ReviewPanelModel { pr_ref_fetch_task: task, ..selected })
                &&& step.effects == seq![
                    EffectModel::FetchPullRequestRef {
                        repository,
                        task: task->0,
                        pr_number: pr.number,
                        program: "git"@,
                        args: seq![
                            "fetch"@,
                            "origin"@,
                            "pull/"@ + decimal(pr.number as nat) + "/head"@,
                        ],
                    },
                    notify,
                ]
            }
            &&& panel.active_repository is None ==> step.panel == selected && step.effects == seq![
                notify,
            ]
        }),
{
}

/// A fetch by itself asks for nothing but git, whether or not a fetch was asked for before, and
/// changes nothing but the number of the last fetch. Without a repository it does nothing.
pub proof fn law_ref_requested(panel: ReviewPanelModel, pr_number: u32)
    ensures
        panel.active_repository is None ==> panel.ref_requested(pr_number).panel == panel
            && panel.ref_requested(pr_number).effects.len() == 0,
        panel.active_repository matches Some(repository) ==> {
            let step = panel.ref_requested(pr_number);
            let task = step.panel.pr_ref_fetch_task;
            &&& task is Some && task != panel.pr_ref_fetch_task
            &&& task == Some(next_task(panel.pr_ref_fetch_task))
            &&& step.panel == (ReviewPanelModel { pr_ref_fetch_task: task, ..panel })
            &&& step.effects == seq![
                EffectModel::FetchPullRequestRef {
                    repository,
                    task: task->0,
                    pr_number,
                    program: "git"@,
                    args: seq![
                        "fetch"@,
                        "origin"@,
                        "pull/"@ + decimal(pr_number as nat) + "/head"@,
                    ],
                },
            ]
        },
{
}

/// The end of the last fetch asks for the diff of the branches that the panel has by then, if git
/// has run and all is known that it takes; any other end of a fetch leads to nothing. In no case
/// does the panel change.
pub proof fn law_ref_fetched(panel: ReviewPanelModel, task: u64, git_has_run: bool)
    ensures
        ({
            let step = panel.ref_fetched(task, git_has_run);
            &&& step.panel == panel
            &&& !git_has_run || panel.pr_ref_fetch_task != Some(task) || panel.active_repository
                is None || panel.base_branch is None || panel.head_branch is None
                ==> step.effects.len() == 0
            &&& git_has_run && panel.pr_ref_fetch_task == Some(task) && panel.active_repository
                is Some && panel.base_branch is Some && panel.head_branch is Some ==> step.effects
                == seq![
                EffectModel::LoadDiff {
                    repository: panel.active_repository->0,
                    diff_type: DiffTreeTypeModel::MergeBase {
                        base: panel.base_branch->0,
                        head: panel.head_branch->0,
                    },
                },
            ]
        }),
{
}

/// To show the pull requests makes their list from what the panel knows, unless there is one,
/// which then stays as it is. The list is loaded if it is empty, and nothing else changes but what
/// is shown.
pub proof fn law_pull_request_list_shown(panel: ReviewPanelModel)
    ensures
        ({
            let step = panel.pull_request_list_shown();
            let source = PullRequestSourceModel {
                provider: panel.provider,
                owner: panel.remote_owner,
                repo: panel.remote_repo,
            };
            let load = EffectModel::LoadPullRequestsIfEmpty;
            let notify = EffectModel::Notify(Entity::Panel);
            &&& panel.pull_request_list is None ==> step.panel == (ReviewPanelModel {
                pull_request_list: Some(source),
                active_view: ActiveView::PullRequestList,
                ..panel
            }) && step.effects == seq![EffectModel::CreatePullRequestList { source }, load, notify]
            &&& panel.pull_request_list is Some ==> step.panel == (ReviewPanelModel {
                active_view: ActiveView::PullRequestList,
                ..panel
            }) && step.effects == seq![load, notify]
        }),
{
}

/// To refresh asks the list of pull requests to load, where there is one, and changes nothing.
pub proof fn law_pull_requests_refreshed(panel: ReviewPanelModel)
    ensures
        panel.pull_requests_refreshed().panel == panel,
        panel.pull_request_list is Some ==> panel.pull_requests_refreshed().effects == seq![
            EffectModel::RefreshPullRequests,
        ],
        panel.pull_request_list is None ==> panel.pull_requests_refreshed().effects.len() == 0,
{
}

/// The view of a pull request is made of the source that the panel knows, in place of a view
/// before, and nothing else changes.
pub proof fn law_review_view_created(panel: ReviewPanelModel, pr: PullRequestModel)
    ensures
        ({
            let source = PullRequestSourceModel {
                provider: panel.provider,
                owner: panel.remote_owner,
                repo: panel.remote_repo,
            };
            &&& panel.source() == source
            &&& panel.review_view_created(pr).panel == (ReviewPanelModel {
                review_view: Some(ReviewViewModel { source, pull_request: pr }),
                ..panel
            })
            &&& panel.review_view_created(pr).effects == seq![
                EffectModel::CreateReviewView { source, pull_request: pr },
            ]
        }),
{
}

/// To leave a pull request forgets it and its view and does what showing the pull requests does;
/// the branches, the diff and the file list stay.
pub proof fn law_review_left_step(panel: ReviewPanelModel)
    ensures
        ({
            let step = panel.review_left();
            let source = PullRequestSourceModel {
                provider: panel.provider,
                owner: panel.remote_owner,
                repo: panel.remote_repo,
            };
            let load = EffectModel::LoadPullRequestsIfEmpty;
            let notify = EffectModel::Notify(Entity::Panel);
            &&& step.panel == (ReviewPanelModel {
                selected_pr: None,
                review_view: None,
                active_view: ActiveView::PullRequestList,
                pull_request_list: if panel.pull_request_list is Some {
                    panel.pull_request_list
                } else {
                    Some(source)
                },
                ..panel
            })
            &&& panel.pull_request_list is Some ==> step.effects == seq![load, notify]
            &&& panel.pull_request_list is None ==> step.effects == seq![
                EffectModel::CreatePullRequestList { source },
                load,
                notify,
            ]
        }),
{
}

/// To ask for the changes of a file marks the file as viewed and selects it in the file list, where
/// there is one, and leaves the file to wait for the panel to be drawn, in place of what waited
/// before. Nothing else changes.
pub proof fn law_file_diff_opened(panel: ReviewPanelModel, path: Seq<char>)
    ensures
        ({
            let step = panel.file_diff_opened(path);
            let waiting = ReviewPanelModel {
                pending_action: Some(PendingActionModel::OpenDiff(path)),
                ..panel
            };
            &&& panel.file_list is None ==> step.panel == waiting && step.effects == seq![
                EffectModel::Notify(Entity::Panel),
            ]
            &&& panel.file_list matches Some(list) ==> step.panel == (ReviewPanelModel {
                file_list: Some(
                    FileListModel {
                        viewed_files: list.viewed_files.insert(path),
                        selected_entry: list.position(path),
                        ..list
                    },
                ),
                ..waiting
            }) && step.effects == seq![
                EffectModel::Notify(Entity::FileList),
                EffectModel::Notify(Entity::FileList),
                EffectModel::Notify(Entity::Panel),
            ]
        }),
{
}

/// To ask for a file itself leaves it to wait for the panel to be drawn, in place of what waited
/// before, and changes nothing else.
pub proof fn law_local_file_opened(panel: ReviewPanelModel, path: Seq<char>)
    ensures
        panel.local_file_opened(path).panel == (ReviewPanelModel {
            pending_action: Some(PendingActionModel::OpenLocal(path)),
            ..panel
        }),
        panel.local_file_opened(path).effects == seq![EffectModel::Notify(Entity::Panel)],
{
}

/// A file that was asked for itself is opened when the panel is drawn, with the focus, for good
/// and in front, whatever else the panel holds. Without a workspace, a repository or a place in the
/// project nothing is opened. Either way it waits no longer, and nothing else changes.
pub proof fn law_local_file_is_opened(
    panel: ReviewPanelModel,
    path: Seq<char>,
    project_path: ProjectPathModel,
)
    ensures
        ({
            let asked = panel.local_file_opened(path).panel;
            let drawn = ReviewPanelModel { pending_action: None, ..panel };
            &&& asked.pending_path() == Some(path)
            &&& panel.active_repository is Some ==> asked.flushed(true, Some(project_path)).effects
                == seq![
                EffectModel::OpenPathPreview {
                    project_path,
                    pane: None,
                    focus_item: true,
                    allow_preview: false,
                    activate: true,
                },
            ]
            &&& panel.active_repository is None ==> asked.flushed(
                true,
                Some(project_path),
            ).effects.len() == 0
            &&& asked.flushed(false, Some(project_path)).effects.len() == 0
            &&& asked.flushed(true, None).effects.len() == 0
            &&& asked.flushed(false, None).effects.len() == 0
            &&& asked.flushed(true, Some(project_path)).panel == drawn
            &&& asked.flushed(false, Some(project_path)).panel == drawn
            &&& asked.flushed(true, None).panel == drawn
            &&& asked.flushed(false, None).panel == drawn
        }),
{
}

/// The changes of a file that was asked for are shown when the panel is drawn, whatever list or
/// view there is: those of the selected pull request, from its base to its head commit, at this
/// file, and without a pull request those of the branch. Without a workspace, a repository or a
/// place in the project nothing is shown. Either way it waits no longer.
pub proof fn law_file_diff_is_shown(
    panel: ReviewPanelModel,
    path: Seq<char>,
    project_path: ProjectPathModel,
)
    ensures
        ({
            let asked = panel.file_diff_opened(path).panel;
            let drawn = ReviewPanelModel { pending_action: None, ..asked };
            &&& asked.pending_path() == Some(path)
            &&& panel.active_repository is Some ==> (panel.selected_pr matches Some(pr)
                ==> asked.flushed(true, Some(project_path)).effects == seq![
                EffectModel::DeployMergeDiff {
                    base_ref: pr.base_ref,
                    head_ref: Some(pr.head_sha),
                    project_path,
                },
            ])
            &&& panel.active_repository is Some && panel.selected_pr is None ==> asked.flushed(
                true,
                Some(project_path),
            ).effects == seq![EffectModel::ShowBranchDiff]
            &&& panel.active_repository is None ==> asked.flushed(
                true,
                Some(project_path),
            ).effects.len() == 0
            &&& asked.flushed(false, Some(project_path)).effects.len() == 0
            &&& asked.flushed(true, None).effects.len() == 0
            &&& asked.flushed(false, None).effects.len() == 0
            &&& asked.flushed(true, Some(project_path)).panel == drawn
            &&& asked.flushed(false, Some(project_path)).panel == drawn
            &&& asked.flushed(true, None).panel == drawn
            &&& asked.flushed(false, None).panel == drawn
        }),
{
}

/// The view of a pull request that was selected is made when the panel is drawn, with or without a
/// workspace, a repository or a place in the project, from the source that the panel knows by then.
pub proof fn law_pull_request_view_is_made(
    panel: ReviewPanelModel,
    pr: PullRequestModel,
    workspace_open: bool,
    project_path: Option<ProjectPathModel>,
)
    requires
        panel.pending_action == Some(PendingActionModel::SelectPullRequest(pr)),
    ensures
        ({
            let step = panel.flushed(workspace_open, project_path);
            let source = PullRequestSourceModel {
                provider: panel.provider,
                owner: panel.remote_owner,
                repo: panel.remote_repo,
            };
            &&& panel.pending_path() is None
            &&& step.panel == (ReviewPanelModel {
                pending_action: None,
                review_view: Some(ReviewViewModel { source, pull_request: pr }),
                ..panel
            })
            &&& step.effects == seq![EffectModel::CreateReviewView { source, pull_request: pr }]
        }),
{
}

/// Where nothing waits, drawing the panel changes nothing and asks for nothing.
pub proof fn law_nothing_pending(
    panel: ReviewPanelModel,
    workspace_open: bool,
    project_path: Option<ProjectPathModel>,
)
    requires
        panel.pending_action is None,
    ensures
        panel.pending_path() is None,
        panel.flushed(workspace_open, project_path).panel == panel,
        panel.flushed(workspace_open, project_path).effects.len() == 0,
{
}

/// A review of two branches that was open before is opened without any pull request: the branches
/// are compared where a repository is open, and what is shown stays.
pub proof fn law_recent_branches_opened(
    panel: ReviewPanelModel,
    base: Seq<char>,
    head: Seq<char>,
)
    ensures
        ({
            let step = panel.menu_chosen(
                MenuActionModel::OpenRecentReview { base, head, pull_request: None },
            );
            &&& step.panel == (ReviewPanelModel {
                base_branch: Some(base),
                head_branch: Some(head),
                selected_pr: None,
                review_view: None,
                ..panel
            })
            &&& panel.active_repository matches Some(repository) ==> step.effects == seq![
                EffectModel::LoadDiff {
                    repository,
                    diff_type: DiffTreeTypeModel::MergeBase { base, head },
                },
            ]
            &&& panel.active_repository is None ==> step.effects.len() == 0
        }),
{
}

/// A pull request that was open before is opened as if it was selected in the list, with the
/// branches that it has itself.
pub proof fn law_recent_pull_request_opened(
    panel: ReviewPanelModel,
    base: Seq<char>,
    head: Seq<char>,
    pr: PullRequestModel,
)
    ensures
        panel.menu_chosen(
            MenuActionModel::OpenRecentReview { base, head, pull_request: Some(pr) },
        ) == panel.pull_request_selected(pr),
{
    assert(panel.menu_chosen(
        MenuActionModel::OpenRecentReview { base, head, pull_request: Some(pr) },
    ).effects =~= panel.pull_request_selected(pr).effects);
}

/// The other menu entries: the one for a new review shows the pull requests, the one to refresh
/// loads them, a switch between tree and list goes to the view that it names where that view
/// exists, and an entry that does nothing does nothing. A switch does not change the panel.
pub proof fn law_menu_entries(panel: ReviewPanelModel)
    ensures
        panel.menu_chosen(MenuActionModel::Nothing).panel == panel,
        panel.menu_chosen(MenuActionModel::Nothing).effects.len() == 0,
        panel.menu_chosen(MenuActionModel::NewReview) == panel.pull_request_list_shown(),
        panel.menu_chosen(MenuActionModel::Refresh) == panel.pull_requests_refreshed(),
        panel.menu_chosen(MenuActionModel::ToggleTreeView { in_review: true }).panel == panel,
        panel.menu_chosen(MenuActionModel::ToggleTreeView { in_review: false }).panel == panel,
        panel.menu_chosen(MenuActionModel::ToggleTreeView { in_review: true }).effects == (
        if panel.review_view is Some {
            seq![EffectModel::ToggleReviewTreeView]
        } else {
            Seq::empty()
        }),
        panel.menu_chosen(MenuActionModel::ToggleTreeView { in_review: false }).effects == (
        if panel.file_list is Some {
            seq![EffectModel::ToggleFileListTreeView]
        } else {
            Seq::empty()
        }),
{
}

/// Without a file list nothing that is done in it leads anywhere.
pub proof fn law_no_file_list(panel: ReviewPanelModel, action: FileListActionModel)
    requires
        panel.file_list is None,
    ensures
        panel.file_list_acted(action).panel == panel,
        panel.file_list_acted(action).effects.len() == 0,
{
}

/// To move the selection changes nothing of the panel but what is selected in the file list, and
/// the list is to be drawn exactly where the selection has changed.
pub proof fn law_selection_moves(panel: ReviewPanelModel, list: FileListModel)
    requires
        panel.file_list == Some(list),
        list.wf(),
    ensures
        ({
            let down = panel.file_list_acted(FileListActionModel::SelectNext);
            let up = panel.file_list_acted(FileListActionModel::SelectPrevious);
            let notified = seq![EffectModel::Notify(Entity::FileList)];
            let at = |i: usize|
                ReviewPanelModel {
                    file_list: Some(FileListModel { selected_entry: Some(i), ..list }),
                    ..panel
                };
            &&& list.entries.len() == 0 ==> down.panel == panel && down.effects.len() == 0
                && up.panel == panel && up.effects.len() == 0
            &&& list.entries.len() > 0 && list.selected_entry is None ==> down.panel == at(0)
                && down.effects == notified && up.panel == at(0) && up.effects == notified
            &&& list.selected_entry matches Some(i) ==> if i == list.entries.len() - 1 {
                down.panel == panel && down.effects.len() == 0
            } else {
                down.panel == at((i + 1) as usize) && down.effects == notified
            }
            &&& list.selected_entry matches Some(i) ==> if i == 0 {
                up.panel == panel && up.effects.len() == 0
            } else {
                up.panel == at((i - 1) as usize) && up.effects == notified
            }
        }),
{
}

/// To confirm asks for the changes of the selected file, whatever happened to it, and to open
/// asks for the selected file itself unless it was deleted. Without a selection neither asks for
/// anything, and neither changes the panel.
pub proof fn law_selected_file_asked_for(panel: ReviewPanelModel, list: FileListModel)
    requires
        panel.file_list == Some(list),
        list.wf(),
    ensures
        ({
            let confirmed = panel.file_list_acted(FileListActionModel::Confirm);
            let opened = panel.file_list_acted(FileListActionModel::OpenLocalFile);
            &&& confirmed.panel == panel
            &&& opened.panel == panel
            &&& list.selected_entry is None ==> confirmed.effects.len() == 0
                && opened.effects.len() == 0
            &&& list.selected_entry matches Some(i) ==> confirmed.effects == seq![
                EffectModel::Emit(FileListEventModel::OpenFileDiff(list.entries[i as int].path)),
            ]
            &&& list.selected_entry matches Some(i) ==> if list.entries[i as int].status
                is Deleted {
                opened.effects.len() == 0
            } else {
                opened.effects == seq![
                    EffectModel::Emit(
                        FileListEventModel::OpenLocalFile(list.entries[i as int].path),
                    ),
                ]
            }
        }),
{
}

/// A click on a file marks it as viewed, selects it where it is listed, and asks for its changes,
/// whatever was selected or viewed before.
pub proof fn law_file_clicked(panel: ReviewPanelModel, list: FileListModel, path: Seq<char>)
    requires
        panel.file_list == Some(list),
    ensures
        ({
            let step = panel.file_list_acted(FileListActionModel::Click(path));
            &&& step.panel == (ReviewPanelModel {
                file_list: Some(
                    FileListModel {
                        viewed_files: list.viewed_files.insert(path),
                        selected_entry: list.position(path),
                        ..list
                    },
                ),
                ..panel
            })
            &&& step.effects == seq![
                EffectModel::Emit(FileListEventModel::OpenFileDiff(path)),
                EffectModel::Notify(Entity::FileList),
            ]
        }),
{
}

/// The menu of options ends with the configuration, the full screen and the refresh. Where files or
/// a pull request are shown it begins with a switch for the view that is shown, named for what the
/// switch leads to.
pub proof fn law_options_menu(panel: ReviewPanelModel, file_list_tree: bool, review_tree: bool)
    ensures
        ({
            let menu = panel.options_menu(file_list_tree, review_tree);
            let tail = seq![
                MenuItemModel::Entry {
                    label: "Configuration"@,
                    action: MenuActionModel::Nothing,
                },
                MenuItemModel::Separator,
                MenuItemModel::Entry { label: "Full Screen"@, action: MenuActionModel::Nothing },
                MenuItemModel::Separator,
                MenuItemModel::Entry { label: "Refresh"@, action: MenuActionModel::Refresh },
            ];
            &&& panel.active_view == ActiveView::Empty || panel.active_view
                == ActiveView::PullRequestList || panel.active_view == ActiveView::Configuration
                ==> menu == tail
            &&& panel.active_view == ActiveView::FileList ==> menu == seq![
                MenuItemModel::Entry {
                    label: if panel.file_list is Some && file_list_tree {
                        "Flat View"@
                    } else {
                        "Tree View"@
                    },
                    action: MenuActionModel::ToggleTreeView { in_review: false },
                },
                MenuItemModel::Separator,
            ] + tail
            &&& panel.active_view == ActiveView::ReviewThread ==> menu == seq![
                MenuItemModel::Entry {
                    label: if panel.review_view is Some && review_tree {
                        "Flat View"@
                    } else {
                        "Tree View"@
                    },
                    action: MenuActionModel::ToggleTreeView { in_review: true },
                },
                MenuItemModel::Separator,
            ] + tail
        }),
{
}

} // verus!
