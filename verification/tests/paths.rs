use review_ui::repo_path::RepoPath;
use review_ui::text::{append_decimal, chars_of};

fn less(a: &str, b: &str) -> bool {
    RepoPath::new(a).less(&RepoPath::new(b))
}

#[test]
fn separators_come_before_other_characters() {
    assert!(less("a/b", "a-b"));
    assert!(!less("a-b", "a/b"));
    assert!(less("a/b", "a b"));
    assert!(less("src/z.rs", "src.rs"));
}

#[test]
fn shorter_paths_come_first() {
    assert!(less("a", "a/b"));
    assert!(less("a", "ab"));
    assert!(!less("ab", "a"));
    assert!(less("", "a"));
}

#[test]
fn no_path_comes_before_itself() {
    assert!(!less("src/main.rs", "src/main.rs"));
    assert!(!less("", ""));
}

#[test]
fn characters_compare_by_code_point() {
    assert!(less("Z", "a"));
    assert!(less("z", "é"));
    assert!(less("é", "漢"));
}

#[test]
fn the_order_agrees_with_that_of_components() {
    let paths = [
        "", "a", "a/a", "a/b", "a/b/c", "a b", "a-b", "a-b/c", "a.b", "aa", "aa/a", "b", "é/x",
    ];
    for x in paths {
        for y in paths {
            let xs: Vec<&str> = x.split('/').collect();
            let ys: Vec<&str> = y.split('/').collect();
            assert_eq!(less(x, y), xs < ys, "{} {}", x, y);
        }
    }
}

#[test]
fn the_order_is_transitive() {
    assert!(less("a", "a/b") && less("a/b", "a-b") && less("a", "a-b"));
}

#[test]
fn contents_of_a_directory_are_adjacent() {
    assert!(less("a", "a/z"));
    assert!(less("a/z", "a!"));
}

#[test]
fn paths_are_told_apart() {
    let path = RepoPath::new("a/b");
    assert!(path.same(&RepoPath::new("a/b")));
    assert!(!path.same(&RepoPath::new("a/B")));
    assert_eq!(path.as_str(), "a/b");
    assert_eq!(path.clone(), path);
    assert_eq!(path.chars(), vec!['a', '/', 'b']);
}

#[test]
fn numbers_are_written_in_decimal() {
    for n in [0u64, 7, 9, 10, 19, 100, 1234567890, u64::MAX] {
        let mut text = "n=".to_string();
        append_decimal(&mut text, n);
        assert_eq!(text, format!("n={}", n));
    }
}

#[test]
fn characters_of_a_text() {
    assert_eq!(chars_of("é漢a"), vec!['é', '漢', 'a']);
    assert_eq!(chars_of(""), Vec::<char>::new());
}
