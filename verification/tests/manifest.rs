use bankbot::toml::{replace_path_dependencies_with_git, TomlError};

#[test]
fn no_path_deps_is_a_no_op() {
    let input = b"[package]\nname = \"demo\"  # a comment\n\n[dependencies]\nserde = \"1\"\nleft = { version = \"2\", features = [\"x\"] }\n";
    let out = replace_path_dependencies_with_git(
        input.to_vec(),
        "https://example.com/repo".to_string(),
        "main".to_string(),
    )
        .expect("valid toml is accepted");
    // The editor preserves formatting, so an untouched document
    // re-serializes to its own text.
    assert_eq!(out, input.to_vec());
}

#[test]
fn path_deps_become_git_deps() {
    let input = b"[dependencies]\ninline = { path = \"../inline\", version = \"1\" }\nplain = \"1\"\n\n[dev-dependencies.tabled]\npath = \"../tabled\"\n";
    let out = replace_path_dependencies_with_git(
        input.to_vec(),
        "https://example.com/repo".to_string(),
        "main".to_string(),
    )
        .expect("valid toml is accepted");
    let text = String::from_utf8(out).expect("output stays UTF-8");
    let doc: toml_edit::DocumentMut = text.parse().expect("output stays valid TOML");
    let inline = doc["dependencies"]["inline"].as_inline_table().expect("inline table kept");
    assert!(inline.get("path").is_none());
    assert_eq!(inline.get("git").and_then(|v| v.as_str()), Some("https://example.com/repo"));
    assert_eq!(inline.get("branch").and_then(|v| v.as_str()), Some("main"));
    assert_eq!(doc["dependencies"]["plain"].as_str(), Some("1"));
    let tabled = doc["dev-dependencies"]["tabled"].as_table().expect("table kept");
    assert!(tabled.get("path").is_none());
    assert_eq!(
        tabled.get("git").and_then(|i| i.as_str()),
        Some("https://example.com/repo")
    );
    assert_eq!(tabled.get("branch").and_then(|i| i.as_str()), Some("main"));
}

#[test]
fn rewrite_is_idempotent() {
    let url = "https://example.com/repo".to_string();
    let branch = "main".to_string();
    // With path dependencies: the second application returns the first
    // application's output unchanged.
    let input = b"[dependencies]\ninline = { path = \"../inline\" }\n".to_vec();
    let once = replace_path_dependencies_with_git(input, url.clone(), branch.clone())
        .expect("valid toml is accepted");
    let twice = replace_path_dependencies_with_git(once.clone(), url.clone(), branch.clone())
        .expect("the output is valid toml");
    assert_eq!(twice, once);
    // Without any: both applications are the identity.
    let clean = b"[dependencies]\nserde = \"1\"\n".to_vec();
    let out = replace_path_dependencies_with_git(clean.clone(), url.clone(), branch.clone())
        .expect("valid toml is accepted");
    assert_eq!(out, clean);
    let again = replace_path_dependencies_with_git(out.clone(), url, branch)
        .expect("the output is valid toml");
    assert_eq!(again, out);
}

#[test]
fn invalid_utf8_rejected() {
    let err = replace_path_dependencies_with_git(
        vec![0xff, 0xfe, 0x00],
        "u".to_string(),
        "b".to_string(),
    )
        .expect_err("invalid UTF-8 is rejected");
    assert!(matches!(err, TomlError::InvalidUtf8));
    assert_eq!(err.message(), "toml is invalid UTF8");
}

#[test]
fn invalid_toml_rejected() {
    let err = replace_path_dependencies_with_git(
        b"not = = toml".to_vec(),
        "u".to_string(),
        "b".to_string(),
    )
        .expect_err("invalid TOML is rejected");
    assert!(matches!(err, TomlError::InvalidToml));
    assert_eq!(err.message(), "Not a valid toml document");
}
