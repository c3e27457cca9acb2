use bankbot::ingress::{
    handle_issue_comment, ingest_issue_comment, ingress_decision, fresh_uuid, prepare_command,
};
use bankbot::job::{Repo, User};
use bankbot::shellwords::{split_shell_words, split_whitespace_words, take_first_line, tokenize_line};

fn repo() -> Repo {
    Repo {
        id: 42,
        name: "r".to_string(),
        url: "https://example.com/o/r".to_string(),
        owner: User { login: "o".to_string() },
        clone_url: "https://example.com/o/r.git".to_string(),
    }
}

#[test]
fn happy_comment_becomes_job() {
    let uuid = "0123456789abcdef0123456789abcdef0123".to_string();
    let (key, job) = handle_issue_comment(
        "/benchbot",
        "/benchbot bench runtimes --fast",
        repo(),
        7,
        "alice".to_string(),
        uuid,
    )
        .expect("a well-formed command is accepted");
    assert_eq!(
        key,
        "r_/benchbot bench runtimes --fast_0123456789abcdef0123456789abcdef0123"
    );
    assert_eq!(
        job.command,
        vec![
            ".github/benchbot/bench.rhai".to_string(),
            "runtimes".to_string(),
            "--fast".to_string(),
        ]
    );
    assert_eq!(job.issue.number, 7);
    assert_eq!(job.user.login, "alice");
    assert_eq!(job.repository.name, "r");
}

#[test]
fn accepted_command_has_at_least_two_tokens() {
    // One token after the prefix is enough; the prefix itself is the first.
    let accepted = handle_issue_comment(
        "/benchbot",
        "/benchbot bench",
        repo(),
        1,
        "u".to_string(),
        "x".to_string(),
    );
    assert!(accepted.is_some());
}

#[test]
fn empty_command_body_after_prefix_is_dropped() {
    let dropped = handle_issue_comment(
        "/benchbot",
        "/benchbot",
        repo(),
        1,
        "u".to_string(),
        "x".to_string(),
    );
    assert!(dropped.is_none());
    let dropped = handle_issue_comment(
        "/benchbot",
        "/benchbot   ",
        repo(),
        1,
        "u".to_string(),
        "x".to_string(),
    );
    assert!(dropped.is_none());
}

#[test]
fn comment_without_prefix_is_dropped() {
    let dropped = handle_issue_comment(
        "/benchbot",
        "just chatting about /benchbot",
        repo(),
        1,
        "u".to_string(),
        "x".to_string(),
    );
    assert!(dropped.is_none());
}

#[test]
fn command_is_first_line_only() {
    let (_, job) = handle_issue_comment(
        "/benchbot",
        "/benchbot bench quick\nand this second line is ignored",
        repo(),
        1,
        "u".to_string(),
        "x".to_string(),
    )
        .expect("accepted");
    assert_eq!(
        job.command,
        vec![".github/benchbot/bench.rhai".to_string(), "quick".to_string()]
    );
}

#[test]
fn prepare_command_maps_script_path() {
    let prepared = prepare_command(vec![
        "/benchbot".to_string(),
        "bench".to_string(),
        "runtimes".to_string(),
    ])
        .expect("two or more tokens prepare");
    assert_eq!(
        prepared,
        vec![".github/benchbot/bench.rhai".to_string(), "runtimes".to_string()]
    );
    assert!(prepare_command(vec!["/benchbot".to_string()]).is_err());
}

#[test]
fn shell_words_quoting() {
    let words = split_shell_words("a 'b c' \"d \\\" e\" f\\ g").expect("balanced quotes parse");
    assert_eq!(
        words,
        vec![
            "a".to_string(),
            "b c".to_string(),
            "d \" e".to_string(),
            "f g".to_string(),
        ]
    );
    assert!(split_shell_words("unbalanced 'quote").is_none());
    assert!(split_shell_words("trailing backslash \\").is_none());
    assert_eq!(split_shell_words("").expect("empty input parses"), Vec::<String>::new());
}

#[test]
fn whitespace_fallback() {
    assert_eq!(
        split_whitespace_words("  a\t b  "),
        vec!["a".to_string(), "b".to_string()]
    );
    // A line that fails shell parsing falls back to whitespace words.
    assert_eq!(
        tokenize_line("/benchbot bench 'oops"),
        vec!["/benchbot".to_string(), "bench".to_string(), "'oops".to_string()]
    );
}

#[test]
fn first_line_extraction() {
    assert_eq!(take_first_line("one\ntwo"), "one");
    assert_eq!(take_first_line("whole"), "whole");
    assert_eq!(take_first_line("\nrest"), "");
}

#[test]
fn fresh_uuid_is_hyphenated() {
    let a = fresh_uuid();
    let b = fresh_uuid();
    assert_eq!(a.len(), 36);
    assert_eq!(b.len(), 36);
    assert_ne!(a, b);
}

#[test]
fn ingest_mints_a_fresh_suffix() {
    let (key, job) = ingest_issue_comment(
        "/benchbot",
        "/benchbot bench runtimes",
        repo(),
        7,
        "alice".to_string(),
    )
        .expect("accepted");
    assert!(key.starts_with("r_/benchbot bench runtimes_"));
    assert_eq!(key.len(), "r_/benchbot bench runtimes_".len() + 36);
    assert_eq!(job.command[0], ".github/benchbot/bench.rhai");
    let (key2, _) = ingest_issue_comment(
        "/benchbot",
        "/benchbot bench runtimes",
        repo(),
        7,
        "alice".to_string(),
    )
        .expect("accepted");
    // Fresh suffixes keep repeated invocations from deduping.
    assert_ne!(key, key2);
}

#[test]
fn unauthenticated_delivery_enqueues_nothing() {
    let secret = b"webhook-secret";
    let body = b"{}";
    let (status, queued) = ingress_decision(
        secret,
        body,
        "sha256=deadbeef",
        Some("/benchbot bench runtimes"),
        "/benchbot",
        Some(repo()),
        7,
        "alice".to_string(),
        "x".to_string(),
    );
    assert_eq!(status, 401);
    assert!(queued.is_none());
}
