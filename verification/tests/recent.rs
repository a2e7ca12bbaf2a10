use review_ui::effects::{PullRequestId, PullRequestInfo};
use review_ui::elements::{MenuAction, MenuItem};
use review_ui::recent_reviews::{
    build_recent_menu, record_review, RecentReview, MAX_RECENT_REVIEWS,
};

fn review(base: &str, head: &str, file_count: usize) -> RecentReview {
    RecentReview {
        base_branch: base.to_string(),
        head_branch: head.to_string(),
        file_count,
        pull_request: None,
    }
}

fn heads(reviews: &Vec<RecentReview>) -> Vec<String> {
    reviews.iter().map(|r| r.head_branch.clone()).collect()
}

#[test]
fn the_latest_review_stands_first() {
    let mut reviews: Vec<RecentReview> = Vec::new();
    record_review(&mut reviews, review("main", "a", 1));
    record_review(&mut reviews, review("main", "b", 2));
    record_review(&mut reviews, review("dev", "a", 3));
    assert_eq!(heads(&reviews), vec!["a", "b", "a"]);
    assert_eq!(reviews[0].base_branch, "dev");
}

#[test]
fn the_same_branches_are_remembered_once() {
    let mut reviews: Vec<RecentReview> = Vec::new();
    record_review(&mut reviews, review("main", "a", 1));
    record_review(&mut reviews, review("main", "b", 2));
    record_review(&mut reviews, review("main", "a", 9));
    assert_eq!(reviews, vec![review("main", "a", 9), review("main", "b", 2)]);
    record_review(&mut reviews, review("main", "a", 9));
    assert_eq!(reviews, vec![review("main", "a", 9), review("main", "b", 2)]);
}

#[test]
fn only_so_many_are_remembered() {
    let mut reviews: Vec<RecentReview> = Vec::new();
    for i in 0..15usize {
        record_review(&mut reviews, review("main", &format!("b{}", i), i));
    }
    assert_eq!(MAX_RECENT_REVIEWS, 10);
    assert_eq!(reviews.len(), 10);
    assert_eq!(reviews[0].head_branch, "b14");
    assert_eq!(reviews[9].head_branch, "b5");
}

#[test]
fn labels_of_reviews() {
    assert_eq!(review("main", "feature", 3).label(), "main..feature (3 files)");
    let pr = PullRequestInfo {
        id: PullRequestId { id: 1 },
        number: 42,
        base_ref: "main".to_string(),
        head_ref: "feature".to_string(),
        head_sha: "abc".to_string(),
    };
    let with_pr = RecentReview { pull_request: Some(pr), ..review("main", "feature", 12) };
    assert_eq!(with_pr.label(), "#42 main..feature (12 files)");
    assert_eq!(with_pr.clone(), with_pr);
}

#[test]
fn the_menu_without_reviews() {
    assert_eq!(
        build_recent_menu(&Vec::new()),
        vec![MenuItem::Entry {
            label: "No recent reviews".to_string(),
            action: MenuAction::Nothing,
        }]
    );
}

#[test]
fn the_menu_of_reviews() {
    let reviews = vec![review("main", "b", 2), review("main", "a", 1)];
    assert_eq!(
        build_recent_menu(&reviews),
        vec![
            MenuItem::Header("Recent".to_string()),
            MenuItem::Entry {
                label: "main..b (2 files)".to_string(),
                action: MenuAction::OpenRecentReview {
                    base: "main".to_string(),
                    head: "b".to_string(),
                    pull_request: None,
                },
            },
            MenuItem::Entry {
                label: "main..a (1 files)".to_string(),
                action: MenuAction::OpenRecentReview {
                    base: "main".to_string(),
                    head: "a".to_string(),
                    pull_request: None,
                },
            },
        ]
    );
}
