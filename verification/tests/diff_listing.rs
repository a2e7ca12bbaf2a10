use review_ui::repo_path::RepoPath;
use review_ui::tree_diff::{sort_diff_entries, Oid, TreeDiff, TreeDiffStatus};

const OLD: Oid = Oid { bytes: [7; 20] };

fn diff(files: &[(&str, TreeDiffStatus)]) -> TreeDiff {
    let mut diff = TreeDiff::new();
    for (path, status) in files {
        diff = diff.insert(RepoPath::new(path), *status);
    }
    diff
}

fn listed(diff: &TreeDiff) -> Vec<(String, TreeDiffStatus)> {
    let entries = sort_diff_entries(diff);
    entries.iter().map(|e| (e.path.as_str().to_string(), e.status)).collect()
}

fn names(diff: &TreeDiff) -> Vec<String> {
    listed(diff).into_iter().map(|(path, _)| path).collect()
}

#[test]
fn an_empty_diff_lists_nothing() {
    assert_eq!(TreeDiff::new().len(), 0);
    assert!(listed(&TreeDiff::new()).is_empty());
}

#[test]
fn groups_come_in_order_and_paths_within_them() {
    let diff = diff(&[
        ("z/deleted", TreeDiffStatus::Deleted { old: OLD }),
        ("b/modified", TreeDiffStatus::Modified { old: OLD }),
        ("z/added", TreeDiffStatus::Added),
        ("a/modified", TreeDiffStatus::Modified { old: OLD }),
        ("a/added", TreeDiffStatus::Added),
        ("a/deleted", TreeDiffStatus::Deleted { old: OLD }),
    ]);
    assert_eq!(
        names(&diff),
        vec!["a/added", "z/added", "a/modified", "b/modified", "a/deleted", "z/deleted"]
    );
    assert_eq!(diff.len(), 6);
}

#[test]
fn the_listing_does_not_depend_on_the_order_of_recording() {
    let files = [
        ("d", TreeDiffStatus::Added),
        ("a", TreeDiffStatus::Deleted { old: OLD }),
        ("c", TreeDiffStatus::Modified { old: OLD }),
        ("b", TreeDiffStatus::Added),
    ];
    let mut reversed = files;
    reversed.reverse();
    assert_eq!(listed(&diff(&files)), listed(&diff(&reversed)));
}

#[test]
fn a_file_is_recorded_once() {
    let diff = diff(&[
        ("a", TreeDiffStatus::Added),
        ("b", TreeDiffStatus::Added),
        ("a", TreeDiffStatus::Deleted { old: OLD }),
    ]);
    assert_eq!(diff.len(), 2);
    assert_eq!(
        listed(&diff),
        vec![
            ("b".to_string(), TreeDiffStatus::Added),
            ("a".to_string(), TreeDiffStatus::Deleted { old: OLD }),
        ]
    );
}

#[test]
fn many_files_are_sorted() {
    let mut diff = TreeDiff::new();
    let mut expected: Vec<String> = Vec::new();
    for i in 0..500u32 {
        let path = format!("{:03}", (i * 277) % 500);
        expected.push(path.clone());
        diff = diff.insert(RepoPath::new(&path), TreeDiffStatus::Added);
    }
    expected.sort();
    assert_eq!(names(&diff), expected);
}

#[test]
fn statuses_have_an_order() {
    assert_eq!(TreeDiffStatus::Added.order(), 0);
    assert_eq!(TreeDiffStatus::Modified { old: OLD }.order(), 1);
    assert_eq!(TreeDiffStatus::Deleted { old: OLD }.order(), 2);
}
