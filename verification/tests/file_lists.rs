use review_ui::effects::{Context, Effect, Entity, FileListEvent};
use review_ui::elements::{Color, IconName, RowFill};
use review_ui::file_list::{FileList, FileListView, FileRow};
use review_ui::repo_path::RepoPath;
use review_ui::tree_diff::{Oid, TreeDiff, TreeDiffStatus};

const OLD: Oid = Oid { bytes: [1; 20] };

fn sample() -> TreeDiff {
    TreeDiff::new()
        .insert(RepoPath::new("gone.rs"), TreeDiffStatus::Deleted { old: OLD })
        .insert(RepoPath::new("changed.rs"), TreeDiffStatus::Modified { old: OLD })
        .insert(RepoPath::new("new.rs"), TreeDiffStatus::Added)
}

fn sample_list() -> FileList {
    let mut cx = Context::new();
    let list = FileList::new(
        Some("main".to_string()),
        Some("feature".to_string()),
        Some(&sample()),
        &mut cx,
    );
    assert!(cx.take_effects().is_empty());
    list
}

fn rows(list: &FileList) -> Vec<FileRow> {
    match list.render() {
        FileListView::Files { rows, .. } => rows,
        FileListView::Message(_) => Vec::new(),
    }
}

fn texts(list: &FileList) -> (String, String) {
    match list.render() {
        FileListView::Files { header, summary, .. } => (header, summary),
        FileListView::Message(message) => (message, String::new()),
    }
}

fn selected(list: &FileList) -> Option<usize> {
    rows(list).iter().position(|row| row.fill == RowFill::Selected)
}

#[test]
fn a_list_without_files_is_loading() {
    let mut cx = Context::new();
    let list = FileList::new(None, None, None, &mut cx);
    assert_eq!(list.render(), FileListView::Message("Loading...".to_string()));
    let list = FileList::new(None, None, Some(&TreeDiff::new()), &mut cx);
    assert_eq!(list.render(), FileListView::Message("Loading...".to_string()));
}

#[test]
fn header_and_summary() {
    let mut list = sample_list();
    assert_eq!(
        texts(&list),
        (
            "main <- feature".to_string(),
            "3 changed files (+1 -1 ~1) — 0/3 viewed".to_string()
        )
    );
    let mut cx = Context::new();
    list.mark_viewed(RepoPath::new("new.rs"), &mut cx);
    list.mark_viewed(RepoPath::new("new.rs"), &mut cx);
    list.mark_viewed(RepoPath::new("elsewhere.rs"), &mut cx);
    assert_eq!(texts(&list).1, "3 changed files (+1 -1 ~1) — 2/3 viewed");
    assert_eq!(
        cx.take_effects(),
        vec![
            Effect::Notify(Entity::FileList),
            Effect::Notify(Entity::FileList),
            Effect::Notify(Entity::FileList),
        ]
    );
}

#[test]
fn unknown_branches_are_question_marks() {
    let mut cx = Context::new();
    let list = FileList::new(None, Some("head".to_string()), Some(&sample()), &mut cx);
    assert_eq!(texts(&list).0, "? <- head");
    let list = FileList::new(Some("base".to_string()), None, Some(&sample()), &mut cx);
    assert_eq!(texts(&list).0, "base <- ?");
}

#[test]
fn rows_show_what_happened() {
    let list = sample_list();
    let rows = rows(&list);
    assert_eq!(
        rows[0],
        FileRow {
            id: "file_entry_0".to_string(),
            path: RepoPath::new("new.rs"),
            icon: IconName::Plus,
            icon_color: Color::Created,
            label: "new.rs".to_string(),
            label_color: Color::Default,
            unviewed_dot: true,
            fill: RowFill::GhostElement,
            hover_fill: RowFill::GhostElementHover,
        }
    );
    assert_eq!((rows[1].icon, rows[1].icon_color), (IconName::Pencil, Color::Modified));
    assert_eq!((rows[2].icon, rows[2].icon_color), (IconName::Dash, Color::Deleted));
    assert_eq!(rows[2].id, "file_entry_2");
    assert_eq!(rows.len(), 3);
}

#[test]
fn steps_down_stop_at_the_last_file() {
    let mut list = sample_list();
    let mut cx = Context::new();
    let mut visited: Vec<Option<usize>> = Vec::new();
    for _ in 0..5 {
        list.select_next(&mut cx);
        visited.push(selected(&list));
    }
    assert_eq!(visited, vec![Some(0), Some(1), Some(2), Some(2), Some(2)]);
    assert_eq!(cx.take_effects().len(), 3);
}

#[test]
fn steps_up_stop_at_the_first_file() {
    let mut list = sample_list();
    let mut cx = Context::new();
    list.select_previous(&mut cx);
    assert_eq!(selected(&list), Some(0));
    list.select_next(&mut cx);
    list.select_next(&mut cx);
    let mut visited: Vec<Option<usize>> = Vec::new();
    for _ in 0..4 {
        list.select_previous(&mut cx);
        visited.push(selected(&list));
    }
    assert_eq!(visited, vec![Some(1), Some(0), Some(0), Some(0)]);
    assert_eq!(cx.take_effects().len(), 5);
}

#[test]
fn a_step_up_undoes_a_step_down() {
    let mut list = sample_list();
    let mut cx = Context::new();
    list.select_next(&mut cx);
    list.select_next(&mut cx);
    list.select_previous(&mut cx);
    assert_eq!(selected(&list), Some(0));
}

#[test]
fn nothing_is_selected_in_an_empty_list() {
    let mut cx = Context::new();
    let mut list = FileList::new(None, None, None, &mut cx);
    list.select_next(&mut cx);
    list.select_previous(&mut cx);
    list.confirm(&mut cx);
    list.open_local_file(&mut cx);
    assert!(cx.take_effects().is_empty());
}

#[test]
fn confirm_asks_for_the_selected_diff() {
    let mut list = sample_list();
    let mut cx = Context::new();
    list.confirm(&mut cx);
    assert!(cx.take_effects().is_empty());
    list.select_next(&mut cx);
    list.select_next(&mut cx);
    cx.take_effects();
    list.confirm(&mut cx);
    assert_eq!(
        cx.take_effects(),
        vec![Effect::Emit(FileListEvent::OpenFileDiff(RepoPath::new("changed.rs")))]
    );
}

#[test]
fn deleted_files_are_not_opened() {
    let mut list = sample_list();
    let mut cx = Context::new();
    list.select_path(&RepoPath::new("gone.rs"), &mut cx);
    assert_eq!(cx.take_effects(), vec![Effect::Notify(Entity::FileList)]);
    list.open_local_file(&mut cx);
    assert!(cx.take_effects().is_empty());
    list.select_path(&RepoPath::new("new.rs"), &mut cx);
    cx.take_effects();
    list.open_local_file(&mut cx);
    assert_eq!(
        cx.take_effects(),
        vec![Effect::Emit(FileListEvent::OpenLocalFile(RepoPath::new("new.rs")))]
    );
}

#[test]
fn a_path_that_is_not_listed_selects_nothing() {
    let mut list = sample_list();
    let mut cx = Context::new();
    list.select_next(&mut cx);
    list.select_path(&RepoPath::new("elsewhere.rs"), &mut cx);
    assert_eq!(selected(&list), None);
}

#[test]
fn a_click_marks_selects_and_opens() {
    let mut list = sample_list();
    let mut cx = Context::new();
    list.click_entry(&RepoPath::new("changed.rs"), &mut cx);
    assert_eq!(
        cx.take_effects(),
        vec![
            Effect::Emit(FileListEvent::OpenFileDiff(RepoPath::new("changed.rs"))),
            Effect::Notify(Entity::FileList),
        ]
    );
    let shown = rows(&list);
    assert_eq!(shown[1].fill, RowFill::Selected);
    assert_eq!(shown[1].hover_fill, RowFill::SelectedHover);
    assert_eq!(shown[1].label_color, Color::Muted);
    assert!(!shown[1].unviewed_dot);
    assert!(shown[0].unviewed_dot && shown[2].unviewed_dot);
    list.click_entry(&RepoPath::new("changed.rs"), &mut cx);
    assert_eq!(rows(&list), shown);
}

#[test]
fn another_diff_starts_afresh() {
    let mut list = sample_list();
    let mut cx = Context::new();
    list.click_entry(&RepoPath::new("changed.rs"), &mut cx);
    cx.take_effects();
    let other = TreeDiff::new().insert(RepoPath::new("only.rs"), TreeDiffStatus::Added);
    list.set_diff(None, None, Some(&other), &mut cx);
    assert_eq!(cx.take_effects(), vec![Effect::Notify(Entity::FileList)]);
    assert_eq!(
        texts(&list),
        ("? <- ?".to_string(), "1 changed files (+1 -0 ~0) — 0/1 viewed".to_string())
    );
    assert_eq!(selected(&list), None);
    list.set_diff(None, None, None, &mut cx);
    assert_eq!(list.render(), FileListView::Message("Loading...".to_string()));
}
