//! The hosting-service side: a credential broker that signs short-lived
//! application assertions and mints installation access tokens from
//! them, and the issue handle that posts comments with a freshly minted
//! token. All network work sits behind trusted wrappers, each building
//! its own client for the one call; the verified functions decide the
//! sequencing and the error shapes. Tokens are minted afresh per use,
//! never cached, and never written out.

use vstd::prelude::*;
use octocrab::models::{InstallationToken, RepositoryId};
use octocrab::params::apps::CreateInstallationAccessToken;
use crate::job::Repo;

verus! {

/// A failure talking to the hosting service, with its diagnostic.
#[derive(Debug)]
pub enum Error {
    /// Posting a comment failed.
    CreateComment(String),
    /// Another API call failed.
    GithubApiError(String),
}

impl Error {
    /// The diagnostic text carried by this error.
    pub fn message(&self) -> (r: String)
        ensures
            self matches Error::CreateComment(d) ==> r@ == d@,
            self matches Error::GithubApiError(d) ==> r@ == d@,
    {
        match self {
            Error::CreateComment(d) => d.clone(),
            Error::GithubApiError(d) => d.clone(),
        }
    }
}

/// Relies on jsonwebtoken::EncodingKey::from_rsa_pem and
/// octocrab::auth::create_jwt: a short-lived RS256 assertion bearing
/// the application id. It is stamped with the current time, so nothing
/// more is promised of it.
#[verifier::external_body]
fn sign_app_jwt(app_id: u64, rsa_pem: &[u8]) -> Result<String, String> {
    let key = jsonwebtoken::EncodingKey::from_rsa_pem(rsa_pem).map_err(|e| e.to_string())?;
    octocrab::auth::create_jwt(octocrab::models::AppId::from(app_id), &key).map_err(
        |e| e.to_string(),
    )
}

/// Relies on octocrab's installations endpoint: under the given
/// application assertion, the access-token URL of the application's
/// first installation. Network work: only the success-or-diagnostic
/// shape holds of every outcome. Drives its own runtime, so it must be
/// called from a plain thread, as the worker is.
#[verifier::external_body]
fn fetch_access_tokens_url(app_jwt: &str) -> Result<String, String> {
    let rt = tokio::runtime::Builder::new_current_thread().enable_all().build().map_err(|e| e.to_string())?;
    let guard = rt.enter();
    let client = octocrab::OctocrabBuilder::new().personal_token(String::from(app_jwt)).build().map_err(|e| e.to_string())?;
    let mut found = rt.block_on(client.apps().installations().send()).map_err(|e| e.to_string())?;
    let installations = found.take_items();
    drop(guard);
    installations.get(0).and_then(|i| i.access_tokens_url.clone()).ok_or(String::from("no installation access token URL"))
}

/// Relies on octocrab's access-token endpoint: posts a token request to
/// the installation's access-token URL, scoped to the given repository
/// ids (unscoped when none are given), and hands back the minted token.
/// Drives its own runtime, so it must be called from a plain thread.
#[verifier::external_body]
fn post_token_request(app_jwt: &str, url: &str, repository_ids: &Vec<u64>) -> Result<String, String> {
    let rt = tokio::runtime::Builder::new_current_thread().enable_all().build().map_err(|e| e.to_string())?;
    let guard = rt.enter();
    let client = octocrab::OctocrabBuilder::new().personal_token(String::from(app_jwt)).build().map_err(|e| e.to_string())?;
    let mut req = CreateInstallationAccessToken::default();
    req.repository_ids = repository_ids.iter().map(|id| RepositoryId(*id)).collect();
    let token: InstallationToken = rt.block_on(client.post(url, Some(&req))).map_err(|e| e.to_string())?;
    drop(guard);
    Ok(token.token)
}

/// Relies on octocrab's issue API: posts the comment body on the issue
/// under the given token, blocking until the hosting service answers,
/// and hands back the created comment's id and address. Drives its own
/// runtime, so it must be called from a plain thread.
#[verifier::external_body]
fn post_comment(
    token: &str,
    owner: &str,
    name: &str,
    number: u64,
    body: &str,
) -> Result<(u64, String), String> {
    let rt = tokio::runtime::Builder::new_current_thread().enable_all().build().map_err(
        |e| e.to_string(),
    )?;
    let guard = rt.enter();
    let client = octocrab::OctocrabBuilder::new().personal_token(String::from(token)).build()
        .map_err(|e| e.to_string())?;
    let posted = rt.block_on(client.issues(owner, name).create_comment(number, body));
    drop(guard);
    posted.map(|c| (*c.id, c.html_url.to_string())).map_err(|e| e.to_string())
}

/// Relies on octocrab's pulls API: opens a pull request from `head`
/// into `base` under the given token, blocking until the hosting
/// service answers. Drives its own runtime, so it must be called from a
/// plain thread.
#[verifier::external_body]
fn create_pull(
    token: &str,
    owner: &str,
    name: &str,
    title: &str,
    body: &str,
    head: &str,
    base: &str,
) -> Result<(), String> {
    let rt = tokio::runtime::Builder::new_current_thread().enable_all().build().map_err(
        |e| e.to_string(),
    )?;
    let guard = rt.enter();
    let client = octocrab::OctocrabBuilder::new().personal_token(String::from(token)).build()
        .map_err(|e| e.to_string())?;
    let sent = rt.block_on(client.pulls(owner, name).create(title, head, base).body(body).send());
    drop(guard);
    sent.map(|_| ()).map_err(|e| e.to_string())
}

/// The repository ids a token request is scoped to: exactly the given
/// repository, or none at all for an unscoped token.
fn scope_ids(repository_id: Option<u64>) -> (ids: Vec<u64>)
    ensures
        repository_id matches Some(id) ==> ids@ == seq![id],
        repository_id is None ==> ids@ == Seq::<u64>::empty(),
{
    let mut ids: Vec<u64> = Vec::new();
    if let Some(id) = repository_id {
        ids.push(id);
        assert(ids@ =~= seq![id]);
    }
    ids
}

/// The credential broker: the application id and signing key supplied
/// at startup, from which each operation mints what it needs afresh.
#[derive(Clone)]
pub struct Broker {
    pub app_id: u64,
    pub key_pem: Vec<u8>,
}

impl Broker {
    /// Hold the application's credentials.
    pub fn new(app_id: u64, key_pem: Vec<u8>) -> (r: Broker)
        ensures
            r.app_id == app_id,
            r.key_pem@ == key_pem@,
    {
        Broker { app_id, key_pem }
    }

    /// A short-lived signed assertion bearing the application id.
    pub fn app_jwt(&self) -> (r: Result<String, Error>)
        ensures
            r matches Err(e) ==> e is GithubApiError,
    {
        match sign_app_jwt(self.app_id, self.key_pem.as_slice()) {
            Ok(jwt) => Ok(jwt),
            Err(detail) => Err(Error::GithubApiError(detail)),
        }
    }

    /// Mint an installation access token, scoped to one repository when
    /// an id is given. The token serves as a Bearer token for API calls
    /// and as the HTTPS password under the fixed user `x-access-token`
    /// for git. Each call signs and mints afresh.
    pub fn installation_token(&self, repository_id: Option<u64>) -> (r: Result<String, Error>)
        ensures
            r matches Err(e) ==> e is GithubApiError,
    {
        let jwt = match self.app_jwt() {
            Ok(jwt) => jwt,
            Err(e) => {
                return Err(e);
            },
        };
        let url = match fetch_access_tokens_url(jwt.as_str()) {
            Ok(url) => url,
            Err(detail) => {
                return Err(Error::GithubApiError(detail));
            },
        };
        let ids = scope_ids(repository_id);
        match post_token_request(jwt.as_str(), url.as_str(), &ids) {
            Ok(token) => Ok(token),
            Err(detail) => Err(Error::GithubApiError(detail)),
        }
    }

    /// Open a pull request on a repository under a freshly minted,
    /// unscoped installation token.
    pub fn open_pull_request(
        &self,
        owner: &str,
        name: &str,
        title: &str,
        body: &str,
        head: &str,
        base: &str,
    ) -> (r: Result<(), Error>)
        ensures
            r matches Err(e) ==> e is GithubApiError,
    {
        let token = match self.installation_token(None) {
            Ok(token) => token,
            Err(e) => {
                return Err(e);
            },
        };
        match create_pull(token.as_str(), owner, name, title, body, head, base) {
            Ok(()) => Ok(()),
            Err(detail) => Err(Error::GithubApiError(detail)),
        }
    }
}

/// A comment created on the hosting service: its id and its address.
pub struct Comment {
    pub id: u64,
    pub url: String,
}

/// The issue handle bound into scripts as `issue`: it posts comments on
/// the triggering issue under a token minted for this job's repository.
pub struct Issue {
    pub broker: Broker,
    pub repository: Repo,
    pub number: u64,
}

impl Issue {
    /// Bind a handle to the triggering issue.
    pub fn new(broker: Broker, repository: Repo, number: u64) -> (r: Issue)
        ensures
            r.repository == repository,
            r.number == number,
            r.broker == broker,
    {
        Issue { broker, repository, number }
    }

    /// Post a comment on this issue: mint a token scoped to the job's
    /// repository and post the body with it. Runs to completion before
    /// returning and hands back the created comment; a failure carries
    /// its diagnostic.
    pub fn create_comment(&mut self, body: &str) -> (r: Result<Comment, Error>)
        ensures
            *final(self) == *old(self),
            r matches Err(e) ==> (e is GithubApiError || e is CreateComment),
    {
        let token = match self.broker.installation_token(Some(self.repository.id)) {
            Ok(token) => token,
            Err(e) => {
                return Err(e);
            },
        };
        match post_comment(
            token.as_str(),
            self.repository.owner.login.as_str(),
            self.repository.name.as_str(),
            self.number,
            body,
        ) {
            Ok(created) => Ok(Comment { id: created.0, url: created.1 }),
            Err(detail) => Err(Error::CreateComment(detail)),
        }
    }
}

} // verus!
