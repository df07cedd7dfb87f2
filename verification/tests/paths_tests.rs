use git_file_diff::paths::is_absolute_path;
use git_file_diff::paths::join_path;
use git_file_diff::paths::parent_dir;
use git_file_diff::paths::strip_path_prefix;

#[test]
fn absolute_paths_are_recognised() {
    assert!(is_absolute_path("/a/b"));
    assert!(is_absolute_path("/"));
    assert!(!is_absolute_path("a/b"));
    assert!(!is_absolute_path(""));
}

#[test]
fn join_inserts_one_separator() {
    assert_eq!(join_path("/p", "f.txt"), "/p/f.txt");
    assert_eq!(join_path("/p/", "f.txt"), "/p/f.txt");
    assert_eq!(join_path("", "f.txt"), "f.txt");
    assert_eq!(join_path("a", "b/c"), "a/b/c");
}

#[test]
fn parent_of_a_nested_path() {
    assert_eq!(parent_dir("/w/x"), "/w");
    assert_eq!(parent_dir("/w/x/y.txt"), "/w/x");
}

#[test]
fn parent_of_a_top_level_path_is_root() {
    assert_eq!(parent_dir("/x"), "/");
}

#[test]
fn parent_of_a_bare_name_is_dot() {
    assert_eq!(parent_dir("name.txt"), ".");
    assert_eq!(parent_dir(""), ".");
}

#[test]
fn strip_prefix_on_a_component_boundary() {
    assert_eq!(
        strip_path_prefix("/w/x/y", "/w/").as_deref(),
        Some("x/y")
    );
    assert_eq!(
        strip_path_prefix("/w/x/y", "/w").as_deref(),
        Some("x/y")
    );
    assert_eq!(strip_path_prefix("/w/x", "/w/x").as_deref(), Some(""));
}

#[test]
fn strip_prefix_refuses_a_partial_component() {
    assert_eq!(strip_path_prefix("/w/xy", "/w/x"), None);
    assert_eq!(strip_path_prefix("/other/x", "/w"), None);
    assert_eq!(strip_path_prefix("/w", "/w/x"), None);
}

#[test]
fn strip_prefix_with_empty_prefix_keeps_relative_form() {
    assert_eq!(strip_path_prefix("a/b", "").as_deref(), Some("a/b"));
    assert_eq!(strip_path_prefix("/a/b", "").as_deref(), Some("a/b"));
}
