use review_ui::effects::{
    Context, DiffTreeType, Effect, Entity, FileListEvent, ProjectPath, ProviderId, PullRequestId,
    PullRequestInfo, PullRequestSource, RepositoryId,
};
use review_ui::elements::{ActionButton, IconName, MenuAction, MenuButton, MenuItem};
use review_ui::file_list::FileListView;
use review_ui::repo_path::RepoPath;
use review_ui::review_panel::{
    Branch, DockPosition, FetchOutcome, FileListAction, GitStoreEvent, PanelBody, Reply,
    ReviewPanel, ReviewViewEvent,
};
use review_ui::tree_diff::{TreeDiff, TreeDiffStatus};

const REPO: RepositoryId = RepositoryId { id: 5 };
const PROVIDER: ProviderId = ProviderId { id: 9 };

fn url() -> Option<String> {
    Some("git@github.com:owner/repo.git".to_string())
}

fn blank() -> ReviewPanel {
    ReviewPanel::new(Some(REPO), &url(), &mut Context::new())
}

fn pr(number: u32) -> PullRequestInfo {
    PullRequestInfo {
        id: PullRequestId { id: number as u64 },
        number,
        base_ref: "main".to_string(),
        head_ref: format!("topic-{}", number),
        head_sha: format!("sha-{}", number),
    }
}

fn source(provider: Option<ProviderId>) -> PullRequestSource {
    PullRequestSource {
        provider,
        owner: Some("owner".to_string()),
        repo: Some("repo".to_string()),
    }
}

fn branch(name: &str, is_head: bool) -> Branch {
    Branch { ref_name: name.to_string(), is_head }
}

fn diff_of(paths: &[&str]) -> TreeDiff {
    let mut diff = TreeDiff::new();
    for path in paths {
        diff = diff.insert(RepoPath::new(path), TreeDiffStatus::Added);
    }
    diff
}

fn with_branches(base: &str, head: &str) -> ReviewPanel {
    let mut panel = blank();
    let mut cx = Context::new();
    assert!(panel.default_branch_loaded(Reply::Loaded(Some(base.to_string())), &mut cx));
    panel.branches_loaded(Reply::Loaded(vec![branch(head, true)]), &mut cx);
    panel
}

fn body(panel: &mut ReviewPanel) -> PanelBody {
    panel.render(true, None, false, false, &mut Context::new()).body
}

fn recent_labels(panel: &ReviewPanel) -> Vec<String> {
    let mut labels: Vec<String> = Vec::new();
    for item in panel.render_recent_reviews_menu() {
        if let MenuItem::Entry { label, .. } = item {
            labels.push(label);
        }
    }
    labels
}

fn merge_base(base: &str, head: &str) -> DiffTreeType {
    DiffTreeType::MergeBase { base: base.to_string(), head: head.to_string() }
}

fn message(text: &str) -> PanelBody {
    PanelBody::Message(text.to_string())
}

#[test]
fn a_new_panel_asks_for_provider_and_branches() {
    let mut cx = Context::new();
    let mut panel = ReviewPanel::new(Some(REPO), &url(), &mut cx);
    assert_eq!(
        cx.take_effects(),
        vec![Effect::ResolveProvider, Effect::LoadBranches { repository: REPO, include_remote_name: false }]
    );
    assert_eq!(body(&mut panel), message("No review selected"));
}

#[test]
fn a_panel_without_repository_asks_for_nothing() {
    let mut cx = Context::new();
    let mut panel = ReviewPanel::new(None, &url(), &mut cx);
    panel.load_diff(&mut cx);
    panel.fetch_pr_ref(1, &mut cx);
    assert!(cx.take_effects().is_empty());
}

#[test]
fn a_remote_elsewhere_gets_no_provider() {
    for remote in [None, Some("https://gitlab.com/a/b".to_string())] {
        let mut cx = Context::new();
        ReviewPanel::new(Some(REPO), &remote, &mut cx);
        assert_eq!(cx.take_effects(), vec![Effect::LoadBranches { repository: REPO, include_remote_name: false }]);
    }
}

#[test]
fn git_store_events() {
    let mut cx = Context::new();
    let mut panel = blank();
    panel.handle_git_store_event(
        GitStoreEvent::ActiveRepositoryChanged {
            active_repository: Some(RepositoryId { id: 6 }),
            remote_url: url(),
        },
        &mut cx,
    );
    assert_eq!(
        cx.take_effects(),
        vec![
            Effect::ResolveProvider,
            Effect::LoadBranches { repository: RepositoryId { id: 6 }, include_remote_name: false },
            Effect::Notify(Entity::Panel),
        ]
    );
    panel.handle_git_store_event(GitStoreEvent::BranchChanged, &mut cx);
    assert_eq!(
        cx.take_effects(),
        vec![Effect::LoadBranches { repository: RepositoryId { id: 6 }, include_remote_name: false }]
    );
    panel.handle_git_store_event(
        GitStoreEvent::RepositoryUpdated { remote_url: url() },
        &mut cx,
    );
    assert_eq!(cx.take_effects(), vec![Effect::ResolveProvider]);
    panel.provider_resolved(PROVIDER, &mut cx);
    assert_eq!(cx.take_effects(), vec![Effect::Notify(Entity::Panel)]);
    panel.handle_git_store_event(
        GitStoreEvent::RepositoryUpdated { remote_url: url() },
        &mut cx,
    );
    panel.handle_git_store_event(GitStoreEvent::Other, &mut cx);
    assert!(cx.take_effects().is_empty());
}

#[test]
fn a_late_provider_reaches_the_list() {
    let mut cx = Context::new();
    let mut panel = blank();
    panel.show_pull_request_list(&mut cx);
    assert_eq!(
        cx.take_effects(),
        vec![
            Effect::CreatePullRequestList { source: source(None) },
            Effect::LoadPullRequestsIfEmpty,
            Effect::Notify(Entity::Panel),
        ]
    );
    panel.provider_resolved(PROVIDER, &mut cx);
    assert_eq!(
        cx.take_effects(),
        vec![
            Effect::SetProvider {
                provider: PROVIDER,
                owner: "owner".to_string(),
                repo: "repo".to_string(),
            },
            Effect::Notify(Entity::Panel),
        ]
    );
    panel.show_pull_request_list(&mut cx);
    assert_eq!(
        cx.take_effects(),
        vec![Effect::LoadPullRequestsIfEmpty, Effect::Notify(Entity::Panel)]
    );
    assert_eq!(body(&mut panel), PanelBody::PullRequestList);
}

#[test]
fn branches_lead_to_a_diff() {
    let mut cx = Context::new();
    let mut panel = blank();
    assert!(panel.default_branch_loaded(Reply::Loaded(Some("main".to_string())), &mut cx));
    assert_eq!(cx.take_effects(), vec![Effect::Notify(Entity::Panel)]);
    panel.branches_loaded(
        Reply::Loaded(vec![branch("old", false), branch("topic", true), branch("x", true)]),
        &mut cx,
    );
    assert_eq!(
        cx.take_effects(),
        vec![
            Effect::LoadDiff {
                repository: REPO,
                diff_type: merge_base("main", "topic"),
            },
            Effect::Notify(Entity::Panel),
        ]
    );
}

#[test]
fn answers_that_fail_change_nothing() {
    let mut cx = Context::new();
    let mut panel = blank();
    assert!(!panel.default_branch_loaded(Reply::Canceled, &mut cx));
    assert!(panel.default_branch_loaded(Reply::Failed, &mut cx));
    assert!(panel.default_branch_loaded(Reply::Loaded(None), &mut cx));
    panel.branches_loaded(Reply::Canceled, &mut cx);
    panel.branches_loaded(Reply::Failed, &mut cx);
    panel.branches_loaded(Reply::Loaded(vec![branch("a", false)]), &mut cx);
    assert!(cx.take_effects().is_empty());
    panel.branches_loaded(Reply::Loaded(vec![branch("a", true)]), &mut cx);
    assert_eq!(cx.take_effects(), vec![Effect::Notify(Entity::Panel)]);
}

#[test]
fn a_loaded_diff_is_listed_and_remembered() {
    let mut cx = Context::new();
    let mut panel = with_branches("main", "topic");
    panel.diff_loaded(Reply::Loaded(diff_of(&["b", "a"])), &mut cx);
    assert_eq!(
        cx.take_effects(),
        vec![Effect::CreateFileList, Effect::Notify(Entity::Panel)]
    );
    match body(&mut panel) {
        PanelBody::FileList(FileListView::Files { header, rows, .. }) => {
            assert_eq!(header, "main <- topic");
            assert_eq!(rows[0].label, "a");
            assert_eq!(rows[1].label, "b");
        }
        other => panic!("{:?}", other),
    }
    assert_eq!(recent_labels(&panel), vec!["main..topic (2 files)"]);
    panel.diff_loaded(Reply::Loaded(diff_of(&["b", "a"])), &mut cx);
    assert_eq!(recent_labels(&panel), vec!["main..topic (2 files)"]);
}

#[test]
fn a_diff_without_files_is_remembered_but_not_shown() {
    let mut cx = Context::new();
    let mut panel = with_branches("main", "topic");
    panel.diff_loaded(Reply::Loaded(TreeDiff::new()), &mut cx);
    assert!(cx.take_effects().is_empty());
    assert_eq!(body(&mut panel), message("No review selected"));
    assert_eq!(recent_labels(&panel), vec!["main..topic (0 files)"]);
}

#[test]
fn a_diff_without_branches_is_not_remembered() {
    let mut cx = Context::new();
    let mut panel = blank();
    panel.diff_loaded(Reply::Loaded(diff_of(&["a"])), &mut cx);
    assert_eq!(recent_labels(&panel), vec!["No recent reviews"]);
}

#[test]
fn a_pull_request_is_fetched_compared_and_shown() {
    let mut cx = Context::new();
    let mut panel = blank();
    panel.provider_resolved(PROVIDER, &mut cx);
    cx.take_effects();
    panel.select_pull_request(&pr(7), &mut cx);
    assert_eq!(
        cx.take_effects(),
        vec![
            Effect::FetchPullRequestRef {
                repository: REPO,
                task: 0,
                pr_number: 7,
                program: "git".to_string(),
                args: vec![
                    "fetch".to_string(),
                    "origin".to_string(),
                    "pull/7/head".to_string(),
                ],
            },
            Effect::Notify(Entity::Panel),
        ]
    );
    assert!(!panel.has_review_view());
    let view = panel.render(false, None, false, false, &mut cx);
    assert_eq!(view.body, PanelBody::ReviewView);
    assert!(panel.has_review_view());
    assert_eq!(
        cx.take_effects(),
        vec![Effect::CreateReviewView { source: source(Some(PROVIDER)), pull_request: pr(7) }]
    );
    for success in [true, false] {
        panel.pr_ref_fetched(0, FetchOutcome::Exited { success }, &mut cx);
        assert_eq!(
            cx.take_effects(),
            vec![Effect::LoadDiff {
                repository: REPO,
                diff_type: merge_base("main", "topic-7"),
            }]
        );
    }
    panel.pr_ref_fetched(0, FetchOutcome::NotRun, &mut cx);
    assert!(cx.take_effects().is_empty());
    panel.diff_loaded(Reply::Loaded(diff_of(&["a"])), &mut cx);
    assert_eq!(cx.take_effects(), vec![Effect::SetReviewTreeDiff]);
    assert_eq!(body(&mut panel), PanelBody::ReviewView);
    assert_eq!(recent_labels(&panel), vec!["#7 main..topic-7 (1 files)"]);
}

#[test]
fn a_pull_request_that_is_not_drawn_yet_is_loading() {
    let mut cx = Context::new();
    let mut panel = blank();
    panel.select_pull_request(&pr(7), &mut cx);
    panel.open_local_file_by_path(RepoPath::new("a"), &mut cx);
    assert_eq!(body(&mut panel), message("Loading..."));
}

#[test]
fn leaving_a_pull_request() {
    let mut cx = Context::new();
    let mut panel = blank();
    panel.select_pull_request(&pr(7), &mut cx);
    assert_eq!(body(&mut panel), PanelBody::ReviewView);
    panel.handle_review_view_event(ReviewViewEvent::Back, &mut cx);
    assert!(!panel.has_review_view());
    assert_eq!(body(&mut panel), PanelBody::PullRequestList);
}

fn project_path() -> ProjectPath {
    ProjectPath { worktree_id: 1, path: RepoPath::new("dir/a") }
}

fn preview() -> Effect {
    Effect::OpenPathPreview {
        project_path: project_path(),
        pane: None,
        focus_item: true,
        allow_preview: false,
        activate: true,
    }
}

#[test]
fn a_file_of_a_pull_request_is_shown_as_a_merge_diff() {
    let mut cx = Context::new();
    let mut panel = blank();
    panel.select_pull_request(&pr(7), &mut cx);
    body(&mut panel);
    cx.take_effects();
    panel.handle_review_view_event(
        ReviewViewEvent::OpenFileDiff(RepoPath::new("a")),
        &mut cx,
    );
    assert_eq!(cx.take_effects(), vec![Effect::Notify(Entity::Panel)]);
    assert_eq!(panel.pending_path(), Some(RepoPath::new("a")));
    panel.flush_pending_action(true, Some(project_path()), &mut cx);
    assert_eq!(
        cx.take_effects(),
        vec![Effect::DeployMergeDiff {
            base_ref: "main".to_string(),
            head_ref: Some("sha-7".to_string()),
            project_path: project_path(),
        }]
    );
    panel.flush_pending_action(true, Some(project_path()), &mut cx);
    assert!(cx.take_effects().is_empty());
}

#[test]
fn a_click_in_the_file_list_opens_the_branch_diff() {
    let mut cx = Context::new();
    let mut panel = with_branches("main", "topic");
    panel.diff_loaded(Reply::Loaded(diff_of(&["a", "b"])), &mut cx);
    cx.take_effects();
    panel.file_list_action(FileListAction::Click(RepoPath::new("b")), &mut cx);
    assert_eq!(
        cx.take_effects(),
        vec![
            Effect::Emit(FileListEvent::OpenFileDiff(RepoPath::new("b"))),
            Effect::Notify(Entity::FileList),
        ]
    );
    let shown = body(&mut panel);
    panel.handle_file_list_event(FileListEvent::OpenFileDiff(RepoPath::new("b")), &mut cx);
    assert_eq!(
        cx.take_effects(),
        vec![
            Effect::Notify(Entity::FileList),
            Effect::Notify(Entity::FileList),
            Effect::Notify(Entity::Panel),
        ]
    );
    panel.flush_pending_action(true, Some(project_path()), &mut cx);
    assert_eq!(cx.take_effects(), vec![Effect::ShowBranchDiff]);
    assert_eq!(body(&mut panel), shown);
}

#[test]
fn keys_in_the_file_list() {
    let mut cx = Context::new();
    let mut panel = with_branches("main", "topic");
    panel.file_list_action(FileListAction::SelectNext, &mut cx);
    assert!(cx.take_effects().is_empty());
    panel.diff_loaded(Reply::Loaded(diff_of(&["a", "b"])), &mut cx);
    cx.take_effects();
    panel.file_list_action(FileListAction::SelectNext, &mut cx);
    panel.file_list_action(FileListAction::SelectNext, &mut cx);
    panel.file_list_action(FileListAction::SelectPrevious, &mut cx);
    cx.take_effects();
    panel.file_list_action(FileListAction::Confirm, &mut cx);
    panel.file_list_action(FileListAction::OpenLocalFile, &mut cx);
    assert_eq!(
        cx.take_effects(),
        vec![
            Effect::Emit(FileListEvent::OpenFileDiff(RepoPath::new("a"))),
            Effect::Emit(FileListEvent::OpenLocalFile(RepoPath::new("a"))),
        ]
    );
}

#[test]
fn a_local_file_is_opened() {
    let mut cx = Context::new();
    let mut panel = blank();
    panel.handle_file_list_event(FileListEvent::OpenLocalFile(RepoPath::new("a")), &mut cx);
    cx.take_effects();
    panel.flush_pending_action(true, Some(project_path()), &mut cx);
    assert_eq!(
        cx.take_effects(),
        vec![preview()]
    );
}

#[test]
fn what_cannot_be_done_is_dropped() {
    for local in [true, false] {
        for (repo, workspace_open, path) in [
            (None, true, Some(project_path())),
            (Some(REPO), false, Some(project_path())),
            (Some(REPO), true, None),
        ] {
            let mut cx = Context::new();
            let mut panel = ReviewPanel::new(repo, &None, &mut cx);
            if local {
                panel.open_local_file_by_path(RepoPath::new("a"), &mut cx);
            } else {
                panel.open_file_diff(RepoPath::new("a"), &mut cx);
            }
            cx.take_effects();
            panel.flush_pending_action(workspace_open, path, &mut cx);
            assert!(cx.take_effects().is_empty());
            assert_eq!(panel.pending_path(), None);
        }
    }
}

#[test]
fn recent_reviews_come_back() {
    let mut cx = Context::new();
    let mut panel = with_branches("main", "topic");
    panel.select_pull_request(&pr(3), &mut cx);
    body(&mut panel);
    cx.take_effects();
    panel.run_menu_action(
        MenuAction::OpenRecentReview {
            base: "dev".to_string(),
            head: "other".to_string(),
            pull_request: None,
        },
        &mut cx,
    );
    assert_eq!(
        cx.take_effects(),
        vec![Effect::LoadDiff {
            repository: REPO,
            diff_type: merge_base("dev", "other"),
        }]
    );
    assert!(!panel.has_review_view());
    panel.run_menu_action(
        MenuAction::OpenRecentReview {
            base: "dev".to_string(),
            head: "other".to_string(),
            pull_request: Some(pr(4)),
        },
        &mut cx,
    );
    cx.take_effects();
    panel.load_diff(&mut cx);
    assert_eq!(
        cx.take_effects(),
        vec![Effect::LoadDiff {
            repository: REPO,
            diff_type: merge_base("main", "topic-4"),
        }]
    );
}

fn entry(label: &str, action: MenuAction) -> MenuItem {
    MenuItem::Entry { label: label.to_string(), action }
}

#[test]
fn the_options_menu() {
    let mut cx = Context::new();
    let mut panel = with_branches("main", "topic");
    let common = || {
        vec![
            entry("Configuration", MenuAction::Nothing),
            MenuItem::Separator,
            entry("Full Screen", MenuAction::Nothing),
            MenuItem::Separator,
            entry("Refresh", MenuAction::Refresh),
        ]
    };
    assert_eq!(panel.render_options_menu(true, true), common());
    panel.diff_loaded(Reply::Loaded(diff_of(&["a"])), &mut cx);
    let mut expected = vec![
        entry("Flat View", MenuAction::ToggleTreeView { in_review: false }),
        MenuItem::Separator,
    ];
    expected.extend(common());
    assert_eq!(panel.render_options_menu(true, false), expected);
    panel.select_pull_request(&pr(3), &mut cx);
    let mut expected = vec![
        entry("Tree View", MenuAction::ToggleTreeView { in_review: true }),
        MenuItem::Separator,
    ];
    expected.extend(common());
    assert_eq!(panel.render_options_menu(true, true), expected);
    body(&mut panel);
    let items = panel.render_options_menu(false, true);
    assert_eq!(items[0], entry("Flat View", MenuAction::ToggleTreeView { in_review: true }));
}

#[test]
fn menu_actions() {
    let mut cx = Context::new();
    let mut panel = blank();
    panel.run_menu_action(MenuAction::Nothing, &mut cx);
    panel.run_menu_action(MenuAction::Refresh, &mut cx);
    panel.run_menu_action(MenuAction::ToggleTreeView { in_review: true }, &mut cx);
    panel.run_menu_action(MenuAction::ToggleTreeView { in_review: false }, &mut cx);
    assert!(cx.take_effects().is_empty());
    panel.show_pull_request_list(&mut cx);
    panel.show_file_list(&mut cx);
    panel.create_review_view(&pr(1), &mut cx);
    cx.take_effects();
    panel.run_menu_action(MenuAction::Refresh, &mut cx);
    panel.run_menu_action(MenuAction::ToggleTreeView { in_review: true }, &mut cx);
    panel.run_menu_action(MenuAction::ToggleTreeView { in_review: false }, &mut cx);
    assert_eq!(
        cx.take_effects(),
        vec![
            Effect::RefreshPullRequests,
            Effect::ToggleReviewTreeView,
            Effect::ToggleFileListTreeView,
        ]
    );
}

#[test]
fn the_toolbar() {
    let toolbar = blank().render_toolbar(false, false);
    assert_eq!(toolbar.title, "Review");
    assert_eq!(
        toolbar.new_review,
        ActionButton {
            id: "new-review".to_string(),
            icon: IconName::Plus,
            tooltip: "New Review".to_string(),
            action: MenuAction::NewReview,
        }
    );
    assert_eq!(
        toolbar.recent_reviews,
        MenuButton {
            id: "review-nav-menu".to_string(),
            icon: IconName::MenuAltTemp,
            tooltip: "Recent Reviews".to_string(),
            menu: vec![entry("No recent reviews", MenuAction::Nothing)],
        }
    );
    assert_eq!(toolbar.options.id, "review-options-menu");
    assert_eq!(toolbar.options.icon, IconName::EllipsisVertical);
    assert_eq!(toolbar.options.tooltip, "Options");
    assert_eq!(toolbar.options.menu.len(), 5);
}

#[test]
fn what_the_dock_asks() {
    let panel = blank();
    assert_eq!(ReviewPanel::persistent_name(), "ReviewPanel");
    assert_eq!(ReviewPanel::panel_key(), "ReviewPanel");
    assert!(panel.position_is_valid(DockPosition::Left));
    assert!(panel.position_is_valid(DockPosition::Right));
    assert!(!panel.position_is_valid(DockPosition::Bottom));
    assert_eq!(panel.icon(true), Some(IconName::PullRequest));
    assert_eq!(panel.icon(false), None);
    assert_eq!(panel.icon_tooltip(), Some("Review Panel"));
    assert_eq!(panel.activation_priority(), 10);
}

#[test]
fn the_last_pending_action_wins() {
    let mut cx = Context::new();
    let mut panel = blank();
    panel.open_file_diff(RepoPath::new("first"), &mut cx);
    panel.open_local_file_by_path(RepoPath::new("second"), &mut cx);
    cx.take_effects();
    assert_eq!(panel.pending_path(), Some(RepoPath::new("second")));
    panel.flush_pending_action(true, Some(project_path()), &mut cx);
    assert_eq!(
        cx.take_effects(),
        vec![preview()]
    );
}

#[test]
fn opening_a_listed_file_marks_it() {
    let mut cx = Context::new();
    let mut panel = with_branches("main", "topic");
    panel.diff_loaded(Reply::Loaded(diff_of(&["a", "b"])), &mut cx);
    panel.open_file_diff(RepoPath::new("b"), &mut cx);
    match body(&mut panel) {
        PanelBody::FileList(FileListView::Files { summary, rows, .. }) => {
            assert_eq!(summary, "2 changed files (+2 -0 ~0) — 1/2 viewed");
            assert!(rows[0].unviewed_dot);
            assert!(!rows[1].unviewed_dot);
        }
        other => panic!("{:?}", other),
    }
}

#[test]
fn a_superseded_fetch_is_ignored() {
    let mut cx = Context::new();
    let mut panel = blank();
    panel.pr_ref_fetched(0, FetchOutcome::Exited { success: true }, &mut cx);
    assert!(cx.take_effects().is_empty());
    panel.select_pull_request(&pr(7), &mut cx);
    panel.select_pull_request(&pr(8), &mut cx);
    cx.take_effects();
    panel.pr_ref_fetched(0, FetchOutcome::Exited { success: true }, &mut cx);
    assert!(cx.take_effects().is_empty());
    panel.pr_ref_fetched(1, FetchOutcome::Exited { success: true }, &mut cx);
    assert_eq!(
        cx.take_effects(),
        vec![Effect::LoadDiff {
            repository: REPO,
            diff_type: merge_base("main", "topic-8"),
        }]
    );
}

#[test]
fn the_new_review_button_shows_the_pull_requests() {
    let mut cx = Context::new();
    let mut panel = blank();
    let button = panel.render_toolbar(false, false).new_review;
    panel.run_menu_action(button.action, &mut cx);
    assert_eq!(
        cx.take_effects(),
        vec![
            Effect::CreatePullRequestList { source: source(None) },
            Effect::LoadPullRequestsIfEmpty,
            Effect::Notify(Entity::Panel),
        ]
    );
    assert_eq!(body(&mut panel), PanelBody::PullRequestList);
}

#[test]
fn a_diff_that_does_not_come_changes_nothing() {
    let mut cx = Context::new();
    let mut panel = with_branches("main", "topic");
    panel.diff_loaded(Reply::Failed, &mut cx);
    panel.diff_loaded(Reply::Canceled, &mut cx);
    assert!(cx.take_effects().is_empty());
    assert_eq!(body(&mut panel), message("No review selected"));
    assert_eq!(recent_labels(&panel), vec!["No recent reviews"]);
}

#[test]
fn copies_of_menu_actions() {
    for action in [
        MenuAction::Nothing,
        MenuAction::NewReview,
        MenuAction::OpenRecentReview {
            base: "main".to_string(),
            head: "topic".to_string(),
            pull_request: Some(pr(2)),
        },
        MenuAction::ToggleTreeView { in_review: true },
        MenuAction::Refresh,
    ] {
        assert_eq!(action.clone(), action);
    }
}
