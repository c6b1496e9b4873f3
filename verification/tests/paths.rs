use opendal::path::{
    build_rel_path, build_rooted_abs_path, ends_with_separator, get_parent, normalize_root,
    starts_with_root,
};

#[test]
fn normalize_root_gives_one_shape() {
    assert_eq!(normalize_root(""), "/");
    assert_eq!(normalize_root("/"), "/");
    assert_eq!(normalize_root("abc"), "/abc/");
    assert_eq!(normalize_root("abc/"), "/abc/");
    assert_eq!(normalize_root("/abc"), "/abc/");
    assert_eq!(normalize_root("///abc"), "/abc/");
    assert_eq!(normalize_root("abc///def"), "/abc/def/");
    assert_eq!(normalize_root("/abc/def/"), "/abc/def/");
    assert_eq!(normalize_root("////"), "/");
}

#[test]
fn normalize_root_is_idempotent() {
    for v in ["", "a", "/a//b/", "x/y/z", "//"] {
        let once = normalize_root(v);
        assert_eq!(normalize_root(&once), once);
    }
}

#[test]
fn normalize_root_keeps_other_characters() {
    assert_eq!(normalize_root(" a b /ü"), "/ a b /ü/");
}

#[test]
fn abs_path_joins_root_and_path() {
    assert_eq!(build_rooted_abs_path("/", "a/b/c.txt"), "/a/b/c.txt");
    assert_eq!(build_rooted_abs_path("/abc/def/", "path/to/file"), "/abc/def/path/to/file");
    assert_eq!(build_rooted_abs_path("/abc/", "dir/"), "/abc/dir/");
}

#[test]
fn abs_path_of_the_root_itself() {
    assert_eq!(build_rooted_abs_path("/abc/", "/"), "/abc/");
    assert_eq!(build_rooted_abs_path("/abc/", ""), "/abc/");
    assert_eq!(build_rooted_abs_path("/", "/"), "/");
}

#[test]
fn abs_path_has_no_doubled_separator_at_the_joint() {
    assert_eq!(build_rooted_abs_path("/abc/", "/x"), "/abc/x");
    assert_eq!(build_rooted_abs_path("/abc/", "///x/y"), "/abc/x/y");
}

#[test]
fn rel_path_takes_the_root_off() {
    assert_eq!(build_rel_path("/abc/def/", "/abc/def/path/to/file"), "path/to/file");
    assert_eq!(build_rel_path("/", "/a"), "a");
    assert_eq!(build_rel_path("/abc/", "/abc/"), "");
}

#[test]
fn rel_path_of_a_key_without_leading_separator() {
    assert_eq!(build_rel_path("/abc/def/", "abc/def/path/to/file"), "path/to/file");
    assert_eq!(build_rel_path("/", "b/c"), "b/c");
    assert_eq!(build_rel_path("/", ""), "");
}

#[test]
fn starts_with_root_tells_what_lies_below() {
    assert!(starts_with_root("/abc/", "/abc/x"));
    assert!(starts_with_root("/abc/", "abc/x"));
    assert!(starts_with_root("/", "anything"));
    assert!(starts_with_root("/", "/anything"));
    assert!(!starts_with_root("/abc/", "/abd/x"));
    assert!(!starts_with_root("/abc/", "ab"));
    assert!(!starts_with_root("/abc/", "/abc"));
    assert!(!starts_with_root("", "x"));
    assert!(starts_with_root("", "/x"));
}

#[test]
fn round_trip_gives_the_relative_path_back() {
    for root in ["/", "/abc/", "/a/b/c/"] {
        for p in ["", "a", "a/b/c.txt", "dir/", "ü/é", "a//b"] {
            let abs = build_rooted_abs_path(root, p);
            assert!(starts_with_root(root, &abs));
            assert_eq!(build_rel_path(root, &abs), p);
        }
    }
}

#[test]
fn round_trip_drops_leading_separators() {
    let abs = build_rooted_abs_path("/abc/", "/");
    assert_eq!(build_rel_path("/abc/", &abs), "");
}

#[test]
fn parent_of_a_file() {
    assert_eq!(get_parent("/a/b/c.txt"), Some("/a/b".to_string()));
    assert_eq!(get_parent("/a"), Some("/".to_string()));
    assert_eq!(get_parent("/a/b/"), Some("/a".to_string()));
    assert_eq!(get_parent("/a//b"), Some("/a".to_string()));
    assert_eq!(get_parent("a/b"), Some("a".to_string()));
}

#[test]
fn parent_passes_over_dot_segments() {
    assert_eq!(get_parent("/a/./b"), Some("/a".to_string()));
    assert_eq!(get_parent("/a/b/."), Some("/a".to_string()));
    assert_eq!(get_parent("/a/b/./"), Some("/a".to_string()));
    assert_eq!(get_parent("/a/././b/./."), Some("/a".to_string()));
    assert_eq!(get_parent("/./a"), Some("/".to_string()));
    assert_eq!(get_parent("/a/./b/c"), Some("/a/./b".to_string()));
    assert_eq!(get_parent("a/./b"), Some("a".to_string()));
}

#[test]
fn parent_keeps_other_segments_with_dots() {
    assert_eq!(get_parent("/a/.."), Some("/a".to_string()));
    assert_eq!(get_parent("/a/../b"), Some("/a/..".to_string()));
    assert_eq!(get_parent("/a/.b/c"), Some("/a/.b".to_string()));
    assert_eq!(get_parent("/a/b./c"), Some("/a/b.".to_string()));
    assert_eq!(get_parent("/a/.../c"), Some("/a/...".to_string()));
    assert_eq!(get_parent("/.."), Some("/".to_string()));
}

#[test]
fn parent_agrees_with_the_standard_library_on_absolute_paths() {
    for p in [
        "/", "/.", "/a", "/a/", "/a/b", "/a/b/", "/a//b", "/a/./b", "/a/b/.", "/a/b/./", "/./a",
        "/a/..", "/a/../b", "//", "/a/b/c.txt", "/a/.b", "/a/b.", "/.a/.", "/a/./././b",
    ] {
        let theirs = std::path::Path::new(p).parent().map(|d| d.to_string_lossy().into_owned());
        assert_eq!(get_parent(p), theirs);
    }
}

#[test]
fn parent_is_absent_without_a_directory_component() {
    assert_eq!(get_parent("."), None);
    assert_eq!(get_parent("/."), None);
    assert_eq!(get_parent("/./."), None);
    assert_eq!(get_parent("./a"), None);
    assert_eq!(get_parent("a/."), None);
    assert_eq!(get_parent(""), None);
    assert_eq!(get_parent("/"), None);
    assert_eq!(get_parent("///"), None);
    assert_eq!(get_parent("abc"), None);
    assert_eq!(get_parent("abc/"), None);
}

#[test]
fn ends_with_separator_marks_directories() {
    assert!(ends_with_separator("a/"));
    assert!(ends_with_separator("/"));
    assert!(!ends_with_separator(""));
    assert!(!ends_with_separator("a/b"));
}
