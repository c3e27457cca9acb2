//! Jobs and the checkout manager: the data carried from an accepted
//! webhook to the worker, and the materialization of a working tree at
//! the pull-request head revision.

use vstd::prelude::*;
use vstd::string::*;
use crate::gitio;
use crate::text::{u64_dec, u64_to_dec};

verus! {

/// A failure in the job pipeline, carrying the diagnostic detail.
#[derive(Debug)]
pub enum Error {
    /// Cloning or another repository operation failed.
    Clone(String),
    /// The job's script file could not be found or read.
    NoScriptFound(String),
    /// The repository offers no URL to clone from.
    NoCloneUrl,
    /// The bot command is missing or too short.
    NoCmd,
    /// The checkout path exists but is not a directory.
    NoDirectory(String),
    /// The script failed while running.
    ScriptExecution(String),
    /// The script failed to parse.
    ScriptParse(String),
    /// The `cargo` command could not be parsed.
    CargoCmdParse,
    /// The inbound repository payload lacks a required field.
    MissingRepositoryField(String),
}

impl Error {
    /// The diagnostic text of this error, as the worker reports it.
    pub fn message(&self) -> (r: String)
        ensures
            self matches Error::Clone(d) ==> r@ == "Failed to clone repository: "@ + d@,
            self matches Error::NoScriptFound(d) ==> r@ == "No benchmark job scripts found: "@
                + d@,
            self is NoCloneUrl ==> r@ == "Failed to find a URL to clone the repository"@,
            self is NoCmd ==> r@ == "Missing bot command"@,
            self matches Error::NoDirectory(p) ==> r@
                == "Failed to checkout repository because path exists but is not a directory: "@
                + p@,
            self matches Error::ScriptExecution(d) ==> r@ == "Failed to execute script: "@ + d@,
            self matches Error::ScriptParse(d) ==> r@ == "Failed to parse script: "@ + d@,
            self is CargoCmdParse ==> r@ == "Failed to parse cargo command"@,
            self matches Error::MissingRepositoryField(f) ==> r@
                == "Failed to parse Repository: missing field "@ + f@,
    {
        match self {
            Error::Clone(d) => {
                let mut s = "Failed to clone repository: ".to_owned();
                s.append(d.as_str());
                s
            },
            Error::NoScriptFound(d) => {
                let mut s = "No benchmark job scripts found: ".to_owned();
                s.append(d.as_str());
                s
            },
            Error::NoCloneUrl => "Failed to find a URL to clone the repository".to_owned(),
            Error::NoCmd => "Missing bot command".to_owned(),
            Error::NoDirectory(p) => {
                let mut s =
                    "Failed to checkout repository because path exists but is not a directory: ".to_owned();
                s.append(p.as_str());
                s
            },
            Error::ScriptExecution(d) => {
                let mut s = "Failed to execute script: ".to_owned();
                s.append(d.as_str());
                s
            },
            Error::ScriptParse(d) => {
                let mut s = "Failed to parse script: ".to_owned();
                s.append(d.as_str());
                s
            },
            Error::CargoCmdParse => "Failed to parse cargo command".to_owned(),
            Error::MissingRepositoryField(f) => {
                let mut s = "Failed to parse Repository: missing field ".to_owned();
                s.append(f.as_str());
                s
            },
        }
    }
}

/// An account on the hosting service.
#[derive(Debug)]
pub struct User {
    pub login: String,
}

impl User {
    /// A value-equal copy.
    pub fn duplicate(&self) -> (r: User)
        ensures
            r == *self,
    {
        User { login: self.login.clone() }
    }
}

/// The issue (or pull request) a comment was posted on.
#[derive(Debug)]
pub struct Issue {
    pub number: u64,
}

impl Issue {
    /// A value-equal copy.
    pub fn duplicate(&self) -> (r: Issue)
        ensures
            r == *self,
    {
        Issue { number: self.number }
    }
}

/// A repository on the hosting service, with the fields the pipeline
/// needs made non-optional.
#[derive(Debug)]
pub struct Repo {
    pub id: u64,
    pub name: String,
    pub url: String,
    pub owner: User,
    pub clone_url: String,
}

impl Repo {
    /// Assemble a repository from an inbound payload's fields, rejecting
    /// a payload that lacks an owner or a clone URL.
    pub fn try_from_parts(
        id: u64,
        name: String,
        url: String,
        owner: Option<User>,
        clone_url: Option<String>,
    ) -> (r: Result<Repo, Error>)
        ensures
            owner is None ==> (r matches Err(e) && e matches Error::MissingRepositoryField(f)
                && f@ == "owner"@),
            owner is Some && clone_url is None ==> (r matches Err(e)
                && e matches Error::MissingRepositoryField(f) && f@ == "clone_url"@),
            owner is Some && clone_url is Some ==> (r matches Ok(repo) && repo.id == id
                && repo.name == name && repo.url == url && repo.owner == owner.unwrap()
                && repo.clone_url == clone_url.unwrap()),
    {
        let owner = match owner {
            Some(owner) => owner,
            None => {
                return Err(Error::MissingRepositoryField("owner".to_owned()));
            },
        };
        let clone_url = match clone_url {
            Some(clone_url) => clone_url,
            None => {
                return Err(Error::MissingRepositoryField("clone_url".to_owned()));
            },
        };
        Ok(Repo { id, name, url, owner, clone_url })
    }

    /// A value-equal copy.
    pub fn duplicate(&self) -> (r: Repo)
        ensures
            r == *self,
    {
        Repo {
            id: self.id,
            name: self.name.clone(),
            url: self.url.clone(),
            owner: self.owner.duplicate(),
            clone_url: self.clone_url.clone(),
        }
    }
}

/// One unit of work: the prepared command, the repository it runs in,
/// the issue it answers to and the user who triggered it.
#[derive(Debug)]
pub struct Job {
    pub command: Vec<String>,
    pub user: User,
    pub repository: Repo,
    pub issue: Issue,
}

/// The branch reference of a pull request's head revision.
pub open spec fn spec_pr_branch(issue_number: nat) -> Seq<char> {
    "pull/"@ + u64_dec(issue_number) + "/head"@
}

/// The fetch refspec that mirrors a branch into a local branch of the
/// same name.
pub open spec fn spec_refspec(branch: Seq<char>) -> Seq<char> {
    "refs/"@ + branch + ":refs/heads/"@ + branch
}

/// The working-directory name of a job: a pure function of the job's
/// identity, so repeated invocations reuse the same clone.
pub open spec fn spec_dir_name(job: Job) -> Seq<char> {
    u64_dec(job.repository.id as nat) + "_"@ + u64_dec(job.issue.number as nat) + "_"@
        + job.user.login@ + "_"@ + job.repository.owner.login@ + "_"@ + job.repository.name@
}

/// The working directory of a job, under the repositories root.
pub open spec fn spec_repo_dir(root: Seq<char>, job: Job) -> Seq<char> {
    root + "/"@ + spec_dir_name(job)
}

/// Whether two jobs carry the same command, user, repository and issue.
pub open spec fn same_job(a: Job, b: Job) -> bool {
    a.command@ == b.command@ && a.user == b.user && a.repository == b.repository && a.issue
        == b.issue
}

impl Job {
    /// A value-equal copy.
    pub fn duplicate(&self) -> (r: Job)
        ensures
            same_job(r, *self),
    {
        let mut command: Vec<String> = Vec::new();
        let mut i: usize = 0;
        while i < self.command.len()
            invariant
                i <= self.command@.len(),
                command@ == self.command@.subrange(0, i as int),
            decreases self.command@.len() - i,
        {
            command.push(self.command[i].clone());
            i = i + 1;
            assert(command@ =~= self.command@.subrange(0, i as int));
        }
        assert(command@ =~= self.command@);
        Job {
            command,
            user: self.user.duplicate(),
            repository: self.repository.duplicate(),
            issue: self.issue.duplicate(),
        }
    }

    /// The branch reference for this job's pull request.
    pub fn pr_branch(&self) -> (r: String)
        ensures
            r@ == spec_pr_branch(self.issue.number as nat),
    {
        let mut s = "pull/".to_owned();
        let num = u64_to_dec(self.issue.number);
        s.append(num.as_str());
        s.append("/head");
        s
    }

    /// The working directory for this job under the given root.
    pub fn repo_dir(&self, root: &str) -> (r: String)
        ensures
            r@ == spec_repo_dir(root@, *self),
    {
        let mut s = root.to_owned();
        s.append("/");
        let id = u64_to_dec(self.repository.id);
        s.append(id.as_str());
        s.append("_");
        let num = u64_to_dec(self.issue.number);
        s.append(num.as_str());
        s.append("_");
        s.append(self.user.login.as_str());
        s.append("_");
        s.append(self.repository.owner.login.as_str());
        s.append("_");
        s.append(self.repository.name.as_str());
        s
    }

    /// Materialize a clean working tree for this job at the pull-request
    /// head revision: clone on first use, then fetch and hard-reset.
    ///
    /// Assumes at most one checkout runs at any time; the worker loop
    /// serializes jobs.
    pub fn checkout(&self, root: &str) -> (r: Result<CheckedoutJob, Error>)
        ensures
            r matches Ok(c) ==> same_job(c.job, *self) && c.dir@ == spec_repo_dir(root@, *self)
                && c.root@ == root@,
            r matches Err(e) ==> (e matches Error::NoDirectory(p) ==> p@ == spec_repo_dir(
                root@,
                *self,
            )),
            r matches Err(e) ==> (e is Clone || e is NoDirectory),
    {
        self.checkout_with_token(root, None)
    }

    /// Materialize the working tree as `checkout` does, fetching with a
    /// fresh installation token when one is given — a private
    /// repository's fetch needs it, a public one's does not.
    pub fn checkout_with_token(&self, root: &str, token: Option<&str>) -> (r: Result<
        CheckedoutJob,
        Error,
    >)
        ensures
            r matches Ok(c) ==> same_job(c.job, *self) && c.dir@ == spec_repo_dir(root@, *self)
                && c.root@ == root@,
            r matches Err(e) ==> (e matches Error::NoDirectory(p) ==> p@ == spec_repo_dir(
                root@,
                *self,
            )),
            r matches Err(e) ==> (e is Clone || e is NoDirectory),
    {
        let dir = self.repo_dir(root);
        let repo = if gitio::path_is_dir(dir.as_str()) {
            match gitio::git_open(dir.as_str()) {
                Ok(repo) => repo,
                Err(e) => {
                    return Err(Error::Clone(e));
                },
            }
        } else if gitio::path_exists(dir.as_str()) {
            return Err(Error::NoDirectory(dir));
        } else {
            match gitio::git_clone(self.repository.clone_url.as_str(), dir.as_str()) {
                Ok(repo) => repo,
                Err(e) => {
                    return Err(Error::Clone(e));
                },
            }
        };
        let branch = self.pr_branch();
        let refspec = make_refspec(branch.as_str());
        let fetched = match token {
            Some(token) => gitio::git_fetch_origin_with_token(&repo, refspec.as_str(), token),
            None => gitio::git_fetch_origin(&repo, refspec.as_str()),
        };
        if let Err(e) = fetched {
            return Err(Error::Clone(e));
        }
        if let Err(e) = gitio::git_reset_hard(&repo, "FETCH_HEAD") {
            return Err(Error::Clone(e));
        }
        Ok(CheckedoutJob { job: self.duplicate(), dir, root: root.to_owned() })
    }
}

/// The refspec that fetches a branch into a local branch of the same
/// name.
pub fn make_refspec(branch: &str) -> (r: String)
    ensures
        r@ == spec_refspec(branch@),
{
    let mut s = "refs/".to_owned();
    s.append(branch);
    s.append(":refs/heads/");
    s.append(branch);
    s
}

/// A job whose working tree is materialized on disk at `dir`.
pub struct CheckedoutJob {
    pub job: Job,
    pub dir: String,
    pub root: String,
}

impl CheckedoutJob {
    /// The script file this job runs: the first token of the prepared
    /// command, which the ingress mapped to a repo-relative script path.
    pub fn script_path(&self) -> (r: Result<String, Error>)
        ensures
            self.job.command@.len() == 0 ==> (r matches Err(e) && e is NoCmd),
            self.job.command@.len() > 0 ==> (r matches Ok(p) && p == self.job.command@[0]),
    {
        if self.command_is_empty() {
            Err(Error::NoCmd)
        } else {
            Ok(self.job.command[0].clone())
        }
    }

    fn command_is_empty(&self) -> (r: bool)
        ensures
            r == (self.job.command@.len() == 0),
    {
        self.job.command.len() == 0
    }

    /// Resolve the script path and bundle everything the runtime host
    /// needs to evaluate it.
    pub fn prepare_script(self) -> (r: Result<RunnableJob, Error>)
        ensures
            self.job.command@.len() == 0 ==> (r matches Err(e) && e is NoCmd),
            self.job.command@.len() > 0 ==> (r matches Ok(j) && j.dir == self.dir
                && j.script_path == self.job.command@[0]),
    {
        let script_path = match self.script_path() {
            Ok(p) => p,
            Err(e) => {
                return Err(e);
            },
        };
        Ok(RunnableJob { dir: self.dir, script_path })
    }
}

/// A job ready to run: the checkout directory and the script to
/// evaluate in it. The embedded script engine is attached outside the
/// library.
pub struct RunnableJob {
    pub dir: String,
    pub script_path: String,
}

} // verus!
