use bankbot::job::{Issue, Job, Repo, User};
use bankbot::repo::LocalRepo;

fn stage_buffer(repo: &git2::Repository, path: &str, data: &[u8]) {
    let mut index = repo.index().expect("index");
    let entry = git2::IndexEntry {
        ctime: git2::IndexTime::new(0, 0),
        mtime: git2::IndexTime::new(0, 0),
        dev: 0,
        ino: 0,
        mode: 0o100644,
        uid: 0,
        gid: 0,
        file_size: 0,
        id: git2::Oid::zero(),
        flags: 0,
        flags_extended: 0,
        path: path.as_bytes().to_vec(),
    };
    index.add_frombuffer(&entry, data).expect("stage buffer");
    index.write().expect("write index");
}

fn force_checkout_head(repo: &git2::Repository) {
    let mut co = git2::build::CheckoutBuilder::new();
    co.force();
    repo.checkout_head(Some(&mut co)).expect("checkout head");
}

fn commit_index(repo: &git2::Repository, message: &str, first: bool) {
    let sig = git2::Signature::now("bot", "bot@example.com").expect("signature");
    let mut index = repo.index().expect("index");
    let tree_oid = index.write_tree().expect("tree");
    let tree = repo.find_tree(tree_oid).expect("find tree");
    if first {
        repo.commit(Some("HEAD"), &sig, &sig, message, &tree, &[]).expect("commit");
    } else {
        let parent = repo.head().expect("head").peel_to_commit().expect("commit");
        repo.commit(Some("HEAD"), &sig, &sig, message, &tree, &[&parent]).expect("commit");
    }
}

#[test]
fn commit_then_status_changed_is_empty() {
    let dir = "/tmp/bankbot_scratch_commit";
    let plumb = git2::Repository::init(dir).expect("init");
    stage_buffer(&plumb, "a.txt", b"hello\n");
    commit_index(&plumb, "first", plumb.head().is_err());
    force_checkout_head(&plumb);

    // Stage new content and commit it through the library handle.
    stage_buffer(&plumb, "a.txt", b"world\n");
    let handle = LocalRepo::new(
        dir.to_string(),
        "o".to_string(),
        "r".to_string(),
        "bot".to_string(),
        "bot@example.com".to_string(),
        git2::Repository::open(dir).expect("open"),
    );
    handle.pub_commit("second").expect("library commit");
    force_checkout_head(&plumb);

    // The paths just committed (and not re-modified) report no change.
    let mut status = handle.pub_status().expect("status");
    let changed = status.pub_changed();
    assert!(changed.is_empty(), "freshly committed paths are unchanged");
    let deleted = status.pub_deleted();
    assert!(deleted.is_empty());

    // The committed content is what was staged.
    let head = plumb.head().expect("head").peel_to_commit().expect("commit");
    let blob_id = head.tree().expect("tree").get_name("a.txt").expect("entry").id();
    let blob = plumb.find_blob(blob_id).expect("blob");
    assert_eq!(blob.content(), b"world\n");
    assert_eq!(head.message().unwrap(), "second");
    assert_eq!(head.author().name().unwrap(), "bot");
}

#[test]
fn branch_points_at_head() {
    let dir = "/tmp/bankbot_scratch_branch";
    let plumb = git2::Repository::init(dir).expect("init");
    stage_buffer(&plumb, "b.txt", b"content\n");
    commit_index(&plumb, "first", plumb.head().is_err());
    let handle = LocalRepo::new(
        dir.to_string(),
        "o".to_string(),
        "r".to_string(),
        "bot".to_string(),
        "bot@example.com".to_string(),
        git2::Repository::open(dir).expect("open"),
    );
    handle.pub_branch("feature").expect("branch at head");
    let branch = plumb.find_branch("feature", git2::BranchType::Local).expect("branch exists");
    assert_eq!(
        branch.get().peel_to_commit().expect("commit").id(),
        plumb.head().expect("head").peel_to_commit().expect("commit").id(),
    );
    // Staging through the library works on a real worktree file.
    force_checkout_head(&plumb);
    handle.add("b.txt").expect("stage existing file");
}

#[test]
fn checkout_path_that_is_a_file_is_rejected() {
    // Materialize a plain file exactly where the job's working
    // directory would go: checkout must refuse it as no directory.
    let root = "/tmp/bankbot_scratch_nodir";
    let plumb = git2::Repository::init(root).expect("init");
    stage_buffer(&plumb, "42_7_alice_o_r", b"a file, not a directory\n");
    commit_index(&plumb, "first", plumb.head().is_err());
    force_checkout_head(&plumb);
    let job = Job {
        command: vec![".github/bot/x.rhai".to_string()],
        user: User { login: "alice".to_string() },
        repository: Repo {
            id: 42,
            name: "r".to_string(),
            url: "u".to_string(),
            owner: User { login: "o".to_string() },
            clone_url: "https://invalid.invalid/o/r.git".to_string(),
        },
        issue: Issue { number: 7 },
    };
    let err = job.checkout(root).map(|c| c.dir).expect_err("a file blocks the checkout");
    match err {
        bankbot::job::Error::NoDirectory(p) => {
            assert_eq!(p, "/tmp/bankbot_scratch_nodir/42_7_alice_o_r");
        },
        other => panic!("expected NoDirectory, got {:?}", other),
    }
}

#[test]
fn checkout_of_unfetchable_repository_reports_job_error() {
    // The directory exists and is a repository, but it has no `origin`,
    // so the fetch step fails and the worker gets a job-level error.
    let dir = "/tmp/bankbot_scratch_checkout/42_7_alice_o_r";
    git2::Repository::init(dir).expect("init");
    let job = Job {
        command: vec![".github/bot/x.rhai".to_string()],
        user: User { login: "alice".to_string() },
        repository: Repo {
            id: 42,
            name: "r".to_string(),
            url: "u".to_string(),
            owner: User { login: "o".to_string() },
            clone_url: "https://invalid.invalid/o/r.git".to_string(),
        },
        issue: Issue { number: 7 },
    };
    let err = job.checkout("/tmp/bankbot_scratch_checkout").map(|c| c.dir).expect_err("fetch cannot succeed");
    assert!(matches!(err, bankbot::job::Error::Clone(_)));
}
