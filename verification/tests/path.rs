use vbranch_core::path::RelPath;

fn names(path: &RelPath) -> String {
    path.to_string()
}

#[test]
fn parse_splits_at_slashes() {
    let path = RelPath::parse("dir/sub/test.txt");
    assert_eq!(path.len(), 3);
    assert_eq!(names(&path), "dir/sub/test.txt");
}

#[test]
fn parse_passes_over_empty_pieces_and_dots() {
    for text in ["a/b", "a//b", "a/b/", "/a/b", "./a/b", "a/./b", "a/b/.", "//a///b//"] {
        assert_eq!(RelPath::parse(text), RelPath::parse("a/b"), "{:?}", text);
        assert_eq!(names(&RelPath::parse(text)), "a/b");
    }
}

#[test]
fn parse_keeps_names_that_only_look_like_dots() {
    assert_eq!(names(&RelPath::parse("../a")), "../a");
    assert_eq!(names(&RelPath::parse(".git/config")), ".git/config");
    assert_eq!(names(&RelPath::parse("a/.../b")), "a/.../b");
    assert_eq!(names(&RelPath::parse(".a")), ".a");
}

#[test]
fn the_empty_path_has_no_names() {
    for text in ["", "/", ".", "./", "//"] {
        let path = RelPath::parse(text);
        assert!(path.is_empty(), "{:?}", text);
        assert_eq!(path.len(), 0);
        assert_eq!(names(&path), "");
        assert_eq!(path, RelPath::empty());
    }
}

#[test]
fn text_goes_to_a_path_and_back() {
    for text in ["a", "a/b", "dir/test.txt", "é/ü/✓", ".git"] {
        assert_eq!(names(&RelPath::parse(text)), text);
        assert_eq!(RelPath::parse(&names(&RelPath::parse(text))), RelPath::parse(text));
    }
}

#[test]
fn join_puts_one_path_after_the_other() {
    let dir = RelPath::parse("dir");
    let file = RelPath::parse("sub/test.txt");
    assert_eq!(dir.join(&file), RelPath::parse("dir/sub/test.txt"));
    assert_eq!(dir.join(&RelPath::empty()), dir);
    assert_eq!(RelPath::empty().join(&file), file);
    assert_eq!(dir.join(&file).len(), 3);
}

#[test]
fn starts_with_goes_by_whole_names() {
    let path = RelPath::parse("dir/test.txt");
    assert!(path.starts_with(&RelPath::parse("dir")));
    assert!(path.starts_with(&RelPath::parse("dir/test.txt")));
    assert!(path.starts_with(&RelPath::empty()));
    assert!(!path.starts_with(&RelPath::parse("di")));
    assert!(!path.starts_with(&RelPath::parse("dir/test")));
    assert!(!path.starts_with(&RelPath::parse("dir/test.txt/more")));
    assert!(!RelPath::parse("dir2/test.txt").starts_with(&RelPath::parse("dir")));
    assert!(!path.starts_with(&RelPath::parse("test.txt")));
}

#[test]
fn strip_prefix_leaves_the_rest() {
    let path = RelPath::parse("dir/sub/test.txt");
    assert_eq!(
        path.strip_prefix(&RelPath::parse("dir")),
        Some(RelPath::parse("sub/test.txt"))
    );
    assert_eq!(path.strip_prefix(&RelPath::empty()), Some(path.clone()));
    assert_eq!(path.strip_prefix(&path), Some(RelPath::empty()));
    assert_eq!(path.strip_prefix(&RelPath::parse("sub")), None);
    assert_eq!(path.strip_prefix(&RelPath::parse("dir/su")), None);
    assert_eq!(RelPath::empty().strip_prefix(&RelPath::parse("dir")), None);
}

#[test]
fn stripping_undoes_joining() {
    let dir = RelPath::parse("a/b");
    let rest = RelPath::parse("c/d");
    assert_eq!(dir.join(&rest).strip_prefix(&dir), Some(rest));
}

#[test]
fn first_is_looks_at_the_first_name_only() {
    assert!(RelPath::parse(".git/config").first_is(".git"));
    assert!(RelPath::parse(".git").first_is(".git"));
    assert!(!RelPath::parse("dir/.git").first_is(".git"));
    assert!(!RelPath::parse(".gitignore").first_is(".git"));
    assert!(!RelPath::parse(".gi").first_is(".git"));
    assert!(!RelPath::empty().first_is(".git"));
}

#[test]
fn a_copy_is_the_same_path() {
    let path = RelPath::parse("dir/test.txt");
    assert_eq!(path.clone(), path);
}
