use bankbot::host::{Broker, Error, Issue};
use bankbot::job::{Repo, User};

#[test]
fn broker_holds_credentials_and_signs_only_valid_keys() {
    let broker = Broker::new(42, b"not a pem".to_vec());
    assert_eq!(broker.app_id, 42);
    assert_eq!(broker.key_pem, b"not a pem".to_vec());
    // An invalid signing key is reported, not used.
    assert!(matches!(broker.app_jwt(), Err(Error::GithubApiError(_))));
    assert!(matches!(broker.installation_token(Some(1)), Err(Error::GithubApiError(_))));
}

#[test]
fn issue_handle_is_bound_to_its_job() {
    let broker = Broker::new(1, Vec::new());
    let issue = Issue::new(
        broker,
        Repo {
            id: 42,
            name: "r".to_string(),
            url: "u".to_string(),
            owner: User { login: "o".to_string() },
            clone_url: "c".to_string(),
        },
        7,
    );
    assert_eq!(issue.number, 7);
    assert_eq!(issue.repository.id, 42);
}

#[test]
fn host_error_messages() {
    assert_eq!(Error::CreateComment("boom".to_string()).message(), "boom");
    assert_eq!(Error::GithubApiError("nope".to_string()).message(), "nope");
}
