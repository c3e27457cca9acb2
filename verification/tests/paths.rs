use bankbot::repo::{
    check_parent_component, join_path, modified_paths, path_within_check, DirEntry, DirEntryPath,
    EntryKind, LocalRepo, Status, StatusEntry, WT_DELETED, WT_MODIFIED, WT_NEW,
};

fn open_scratch_repo(dir: &str) -> LocalRepo {
    let repo = git2::Repository::init(dir).expect("init scratch repository");
    LocalRepo::new(
        dir.to_string(),
        "o".to_string(),
        "r".to_string(),
        "bot".to_string(),
        "bot@example.com".to_string(),
        repo,
    )
}

#[test]
fn parent_components_detected() {
    assert!(check_parent_component("../evil"));
    assert!(check_parent_component("a/../b"));
    assert!(check_parent_component("a/b/.."));
    assert!(!check_parent_component("a/b"));
    assert!(!check_parent_component("..a/b.."));
    assert!(!check_parent_component("a..b"));
    assert!(!check_parent_component(""));
}

#[test]
fn write_path_escape_is_rejected() {
    let repo = open_scratch_repo("/tmp/bankbot_scratch_write");
    let err = repo.resolve_write_path("../evil").expect_err("a parent component escapes");
    assert_eq!(err.message(), "no '../' allowed in path names");
    let ok = repo.resolve_write_path("sub/file.txt").expect("a plain relative path lands inside");
    assert_eq!(ok, "/tmp/bankbot_scratch_write/sub/file.txt");
}

#[test]
fn read_path_stays_inside_checkout() {
    let dir = "/tmp/bankbot_scratch_read";
    let repo = open_scratch_repo(dir);
    // The repository's own metadata directory resolves inside the checkout.
    let resolved = repo.resolve_read_path(".git").expect("an existing path resolves");
    assert!(resolved.starts_with("/tmp/bankbot_scratch_read"));
    // A traversal out of the checkout is refused even though the target exists.
    assert!(repo.resolve_read_path("../..").is_err());
    assert!(repo.resolve_read_path("no-such-entry").is_err());
}

#[test]
fn within_check_requires_component_boundary() {
    assert!(path_within_check("/a/b/c", "/a/b"));
    assert!(path_within_check("/a/b", "/a/b"));
    assert!(!path_within_check("/a/bc", "/a/b"));
    assert!(!path_within_check("/a", "/a/b"));
}

#[test]
fn join_path_single_separator() {
    assert_eq!(join_path("/root/dir", "x/y"), "/root/dir/x/y");
}

#[test]
fn strip_prefix_component_wise() {
    let mut p = DirEntryPath("a/b/c".to_string());
    assert_eq!(p.strip_prefix("a").0, "b/c");
    let mut p = DirEntryPath("a/b".to_string());
    assert_eq!(p.strip_prefix("a/b").0, "");
    let mut p = DirEntryPath("ax/b".to_string());
    assert_eq!(p.strip_prefix("a").0, "ax/b");
}

#[test]
fn dir_entry_kinds() {
    let mut e = DirEntry::new(DirEntryPath("f".to_string()), EntryKind::File);
    assert!(e.is_file());
    assert!(!e.is_dir());
    assert!(!e.is_symlink());
    assert_eq!(e.get_path().0, "f");
    let mut d = DirEntry::new(DirEntryPath("d".to_string()), EntryKind::Dir);
    assert!(d.is_dir());
    let mut s = DirEntry::new(DirEntryPath("s".to_string()), EntryKind::Symlink);
    assert!(s.is_symlink());
}

#[test]
fn status_filters_by_working_tree_bits() {
    let mut status = Status {
        statuses: vec![
            StatusEntry { path: "new.txt".to_string(), bits: WT_NEW },
            StatusEntry { path: "mod.txt".to_string(), bits: WT_MODIFIED },
            StatusEntry { path: "gone.txt".to_string(), bits: WT_DELETED },
            StatusEntry { path: "both.txt".to_string(), bits: WT_NEW | WT_MODIFIED },
            StatusEntry { path: "plain.txt".to_string(), bits: 0 },
        ],
    };
    let changed: Vec<String> = status.pub_changed().into_iter().map(|p| p.0).collect();
    assert_eq!(changed, vec!["mod.txt".to_string(), "both.txt".to_string()]);
    let added: Vec<String> = status.pub_added().into_iter().map(|p| p.0).collect();
    assert_eq!(added, vec!["new.txt".to_string(), "both.txt".to_string()]);
    let deleted: Vec<String> = status.pub_deleted().into_iter().map(|p| p.0).collect();
    assert_eq!(deleted, vec!["gone.txt".to_string()]);
}

#[test]
fn status_snapshot_mirrors_the_query_pairs() {
    let pairs = vec![
        ("a.txt".to_string(), WT_NEW),
        ("b.txt".to_string(), WT_MODIFIED | WT_DELETED),
        ("c.txt".to_string(), 0),
    ];
    let st = Status::from_pairs(pairs);
    assert_eq!(st.statuses.len(), 3);
    assert_eq!(st.statuses[0].path, "a.txt");
    assert_eq!(st.statuses[0].bits, WT_NEW);
    assert_eq!(st.statuses[1].path, "b.txt");
    assert_eq!(st.statuses[1].bits, WT_MODIFIED | WT_DELETED);
    assert_eq!(st.statuses[2].path, "c.txt");
    assert_eq!(st.statuses[2].bits, 0);
}

#[test]
fn modified_list_mirrors_the_query_pairs() {
    let pairs = vec![
        ("x".to_string(), WT_MODIFIED),
        ("y/z".to_string(), WT_NEW),
    ];
    assert_eq!(modified_paths(pairs), vec!["x".to_string(), "y/z".to_string()]);
    assert_eq!(modified_paths(Vec::new()), Vec::<String>::new());
}
