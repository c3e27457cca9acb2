use bankbot::cargo::{parse_cargo_args, CargoResult, Run};
use bankbot::job::Error;
use bankbot::job::{CheckedoutJob, Issue, Job, Repo, User};
use bankbot::json::job_to_json;
use bankbot::text::{replace_all, u64_to_dec};
use bankbot::worker::{after_job, error_comment_body};

fn job() -> Job {
    Job {
        command: vec![".github/benchbot/bench.rhai".to_string(), "--fast".to_string()],
        user: User { login: "alice".to_string() },
        repository: Repo {
            id: 42,
            name: "r".to_string(),
            url: "https://example.com/o/r".to_string(),
            owner: User { login: "o".to_string() },
            clone_url: "https://example.com/o/r.git".to_string(),
        },
        issue: Issue { number: 7 },
    }
}

#[test]
fn repo_dir_is_a_pure_function_of_identity() {
    let j = job();
    assert_eq!(j.repo_dir("./repos"), "./repos/42_7_alice_o_r");
    assert_eq!(j.repo_dir("./repos"), j.repo_dir("./repos"));
}

#[test]
fn pr_branch_names_the_head_ref() {
    assert_eq!(job().pr_branch(), "pull/7/head");
    assert_eq!(bankbot::job::make_refspec("pull/7/head"), "refs/pull/7/head:refs/heads/pull/7/head");
}

#[test]
fn repository_requires_owner_and_clone_url() {
    let missing_owner = Repo::try_from_parts(1, "n".to_string(), "u".to_string(), None, None);
    assert!(matches!(
        missing_owner,
        Err(bankbot::job::Error::MissingRepositoryField(f)) if f == "owner"
    ));
    let missing_url = Repo::try_from_parts(
        1,
        "n".to_string(),
        "u".to_string(),
        Some(User { login: "o".to_string() }),
        None,
    );
    assert!(matches!(
        missing_url,
        Err(bankbot::job::Error::MissingRepositoryField(f)) if f == "clone_url"
    ));
    let ok = Repo::try_from_parts(
        1,
        "n".to_string(),
        "u".to_string(),
        Some(User { login: "o".to_string() }),
        Some("c".to_string()),
    )
        .expect("complete payload accepted");
    assert_eq!(ok.owner.login, "o");
    assert_eq!(ok.clone_url, "c");
}

#[test]
fn script_path_is_first_command_token() {
    let checked = CheckedoutJob {
        job: job(),
        dir: "/tmp/x".to_string(),
        root: "/tmp".to_string(),
    };
    assert_eq!(checked.script_path().expect("nonempty command"), ".github/benchbot/bench.rhai");
    let runnable = checked.prepare_script().expect("nonempty command");
    assert_eq!(runnable.dir, "/tmp/x");
    assert_eq!(runnable.script_path, ".github/benchbot/bench.rhai");
    let empty = CheckedoutJob {
        job: Job { command: vec![], ..job() },
        dir: "/tmp/x".to_string(),
        root: "/tmp".to_string(),
    };
    assert!(matches!(empty.script_path(), Err(bankbot::job::Error::NoCmd)));
}

#[test]
fn diagnostics_are_scrubbed_of_the_checkout_path() {
    let scrubbed = replace_all(
        "failed to open /tmp/work/42/x.rhai under /tmp/work/42",
        "/tmp/work/42",
        ".",
    );
    assert_eq!(scrubbed, "failed to open ./x.rhai under .");
}

#[test]
fn decimal_formatting() {
    assert_eq!(u64_to_dec(0), "0");
    assert_eq!(u64_to_dec(7), "7");
    assert_eq!(u64_to_dec(1234567890123), "1234567890123");
    assert_eq!(u64_to_dec(u64::MAX), "18446744073709551615");
}

#[test]
fn job_json_shape() {
    let rendered = job_to_json(&job());
    assert_eq!(
        rendered,
        "{\"command\":[\".github/benchbot/bench.rhai\",\"--fast\"],\
         \"repository\":{\"id\":42,\"name\":\"r\",\"url\":\"https://example.com/o/r\",\
         \"owner\":{\"login\":\"o\"},\"clone_url\":\"https://example.com/o/r.git\"},\
         \"issue\":{\"number\":7}}"
    );
}

#[test]
fn job_json_escapes_strings() {
    let mut j = job();
    j.repository.name = "a\"b\\c\nd\u{1}".to_string();
    j.command = vec![];
    let rendered = job_to_json(&j);
    assert!(rendered.contains("\"name\":\"a\\\"b\\\\c\\nd\\u0001\""));
    assert!(rendered.contains("\"command\":[]"));
}

#[test]
fn cargo_failure_is_inspectable_not_fatal() {
    let args = parse_cargo_args("build --offline").expect("plain arguments parse");
    assert_eq!(args, vec!["build".to_string(), "--offline".to_string()]);
    let run = Run::new(args, "/tmp/not-a-cargo-dir".to_string());
    assert_eq!(run.dir, "/tmp/not-a-cargo-dir");
    // A spawn failure is captured as a result, never an exception.
    let mut result = CargoResult::from_spawn_error("Error executing cargo: spawn failed".to_string());
    assert!(!result.is_ok());
    assert!(!result.get_stderr().is_empty());
    assert_eq!(result.get_stdout(), "");
    // A nonzero exit code reads as failure, zero as success.
    let mut failed = CargoResult::from_output(Some(101), "".to_string(), "error".to_string());
    assert!(!failed.is_ok());
    let mut passed = CargoResult::from_output(Some(0), "ok".to_string(), "".to_string());
    assert!(passed.is_ok());
    let mut signalled = CargoResult::from_output(None, "".to_string(), "".to_string());
    assert!(!signalled.is_ok());
    assert!(parse_cargo_args("build 'unbalanced").is_err());
}

#[test]
fn error_messages_carry_their_detail() {
    assert_eq!(Error::NoCmd.message(), "Missing bot command");
    assert_eq!(Error::CargoCmdParse.message(), "Failed to parse cargo command");
    assert_eq!(Error::Clone("x".to_string()).message(), "Failed to clone repository: x");
    assert_eq!(Error::ScriptParse("y".to_string()).message(), "Failed to parse script: y");
    assert_eq!(
        Error::ScriptExecution("z".to_string()).message(),
        "Failed to execute script: z"
    );
}

#[test]
fn worker_reports_failures_on_the_issue() {
    assert_eq!(error_comment_body("boom"), "Error running job: boom");
    assert_eq!(after_job(7, Ok(())), None);
    let (issue, body) = after_job(7, Err("clone failed".to_string())).expect("failure reported");
    assert_eq!(issue, 7);
    assert_eq!(body, "Error running job: clone failed");
}
