//! The repository handle bound into automation scripts: path-checked
//! file access, staging, commits, branches, pushes and status
//! snapshots over the current checkout, and the factory for extra
//! clones. Every path a script supplies is validated against the
//! checkout root before any I/O.

use vstd::prelude::*;
use vstd::string::*;
use crate::gitio;
use crate::text::{to_chars, chars_to_string, str_eq};

verus! {

/// A failure of a repository operation, with its diagnostic where one
/// exists.
#[derive(Debug)]
pub enum Error {
    /// The path exists but is not a directory.
    NoDirectory(String),
    /// A repository operation failed; the diagnostic is carried.
    Checkout(String),
    /// The file or directory was not found (or resolves outside the
    /// checkout on a read).
    NotFound,
    /// A script-supplied path would escape the checkout.
    PathEscape,
    /// Reading or writing a file failed.
    FileIO(String),
    /// The repository name is not of the `owner/repo` shape.
    InvalidGithubRepoName,
}

impl Error {
    /// The diagnostic text a script sees for this error.
    pub fn message(&self) -> (r: String)
        ensures
            self is PathEscape ==> r@ == "no '../' allowed in path names"@,
            self is NotFound ==> r@ == "File or directory not found"@,
            self is InvalidGithubRepoName ==> r@
                == "Given name is not a valid Github repo name (`owner/repo`)"@,
            self matches Error::Checkout(d) ==> r@ == d@,
            self matches Error::FileIO(d) ==> r@ == d@,
            self matches Error::NoDirectory(p) ==> r@ == p@,
    {
        match self {
            Error::PathEscape => "no '../' allowed in path names".to_owned(),
            Error::NotFound => "File or directory not found".to_owned(),
            Error::InvalidGithubRepoName => "Given name is not a valid Github repo name (`owner/repo`)".to_owned(),
            Error::Checkout(d) => d.clone(),
            Error::FileIO(d) => d.clone(),
            Error::NoDirectory(p) => p.clone(),
        }
    }
}

/// The slash-separated components of a path read so far: the finished
/// components and the one being read.
pub open spec fn comp_run(s: Seq<char>, i: int) -> (Seq<Seq<char>>, Seq<char>)
    decreases i,
{
    if i <= 0 {
        (Seq::<Seq<char>>::empty(), Seq::<char>::empty())
    } else {
        let st = comp_run(s, i - 1);
        if s[i - 1] == '/' {
            (st.0.push(st.1), Seq::<char>::empty())
        } else {
            (st.0, st.1.push(s[i - 1]))
        }
    }
}

/// The slash-separated components of a path, empty ones kept.
pub open spec fn path_components(s: Seq<char>) -> Seq<Seq<char>> {
    let st = comp_run(s, s.len() as int);
    st.0.push(st.1)
}

/// Whether any component of the path is the parent directory `..`.
pub open spec fn has_parent_component(s: Seq<char>) -> bool {
    path_components(s).contains(".."@)
}

/// Pushing onto a sequence extends what it contains by the new element.
proof fn lemma_push_contains(s: Seq<Seq<char>>, x: Seq<char>, y: Seq<char>)
    ensures
        s.push(x).contains(y) <==> (s.contains(y) || x == y),
{
    if s.push(x).contains(y) {
        let i = choose|i: int| 0 <= i < s.push(x).len() && s.push(x)[i] == y;
        if i < s.len() {
            assert(s[i] == y);
        }
    }
    if s.contains(y) {
        let i = choose|i: int| 0 <= i < s.len() && s[i] == y;
        assert(s.push(x)[i] == y);
    }
    if x == y {
        assert(s.push(x)[s.len() as int] == y);
    }
}

/// Whether a component is exactly `..`.
fn is_dotdot(cur: &Vec<char>) -> (r: bool)
    ensures
        r == (cur@ == ".."@),
{
    proof {
        reveal_strlit("..");
    }
    if cur.len() == 2 && cur[0] == '.' && cur[1] == '.' {
        assert(cur@ =~= ".."@);
        true
    } else {
        assert(cur@ != ".."@);
        false
    }
}

/// Whether any path component is the parent directory, checked before
/// any filesystem access.
pub fn check_parent_component(path: &str) -> (r: bool)
    ensures
        r == has_parent_component(path@),
{
    let chars = to_chars(path);
    let n = chars.len();
    let mut cur: Vec<char> = Vec::new();
    let mut found = false;
    let mut i: usize = 0;
    while i < n
        invariant
            i <= n,
            n == path@.len(),
            chars@ == path@,
            cur@ == comp_run(path@, i as int).1,
            found == comp_run(path@, i as int).0.contains(".."@),
        decreases n - i,
    {
        let ghost st = comp_run(path@, i as int);
        if chars[i] == '/' {
            if is_dotdot(&cur) {
                found = true;
            }
            cur = Vec::new();
            proof {
                lemma_push_contains(st.0, st.1, ".."@);
            }
        } else {
            cur.push(chars[i]);
        }
        i = i + 1;
    }
    let ghost st = comp_run(path@, n as int);
    proof {
        lemma_push_contains(st.0, st.1, ".."@);
    }
    if is_dotdot(&cur) {
        true
    } else {
        found
    }
}

/// Whether the canonical path lies at or under the canonical root: the
/// root heads it, ending at a component boundary.
pub open spec fn path_within(canon: Seq<char>, root: Seq<char>) -> bool {
    canon.len() >= root.len() && canon.subrange(0, root.len() as int) == root && (canon.len()
        == root.len() || canon[root.len() as int] == '/')
}

/// Whether a canonical path lies at or under a canonical root.
pub fn path_within_check(canon: &str, root: &str) -> (r: bool)
    ensures
        r == path_within(canon@, root@),
{
    let n = canon.unicode_len();
    let m = root.unicode_len();
    if n < m {
        return false;
    }
    let head = canon.substring_char(0, m);
    if !str_eq(head, root) {
        return false;
    }
    if n == m {
        true
    } else {
        canon.get_char(m) == '/'
    }
}

/// A path joined under a directory with a single separator.
pub open spec fn spec_join_path(dir: Seq<char>, p: Seq<char>) -> Seq<char> {
    dir + "/"@ + p
}

/// Join a relative path under a directory.
pub fn join_path(dir: &str, p: &str) -> (r: String)
    ensures
        r@ == spec_join_path(dir@, p@),
{
    let mut s = dir.to_owned();
    s.append("/");
    s.append(p);
    s
}

/// A repo-relative path handed to scripts from listings and statuses.
#[derive(Clone)]
pub struct DirEntryPath(pub String);

impl View for DirEntryPath {
    type V = Seq<char>;

    open spec fn view(&self) -> Seq<char> {
        self.0@
    }
}

impl DeepView for DirEntryPath {
    type V = Seq<char>;

    open spec fn deep_view(&self) -> Seq<char> {
        self.0@
    }
}

impl DirEntryPath {
    /// The path with the given prefix (and one following separator)
    /// removed; a path the prefix does not head is kept whole.
    pub fn strip_prefix(&mut self, prefix: &str) -> (r: DirEntryPath)
        ensures
            *final(self) == *old(self),
            old(self)@ == prefix@ ==> r@ == Seq::<char>::empty(),
            old(self)@ != prefix@ && crate::ingress::spec_starts_with(
                old(self)@,
                prefix@ + "/"@,
            ) ==> r@ == old(self)@.skip(prefix@.len() as int + 1),
            old(self)@ != prefix@ && !crate::ingress::spec_starts_with(
                old(self)@,
                prefix@ + "/"@,
            ) ==> r@ == old(self)@,
    {
        proof {
            reveal_strlit("/");
        }
        let n = self.0.unicode_len();
        let m = prefix.unicode_len();
        if str_eq(self.0.as_str(), prefix) {
            return DirEntryPath(String::new());
        }
        if n > m {
            let head = self.0.as_str().substring_char(0, m + 1);
            let mut with_sep = prefix.to_owned();
            with_sep.append("/");
            if str_eq(head, with_sep.as_str()) {
                assert(head@ =~= old(self)@.subrange(0, m + 1 as int));
                let rest = self.0.as_str().substring_char(m + 1, n);
                assert(rest@ =~= old(self)@.skip(m + 1));
                return DirEntryPath(rest.to_owned());
            }
            assert(!crate::ingress::spec_starts_with(old(self)@, prefix@ + "/"@)) by {
                if crate::ingress::spec_starts_with(old(self)@, prefix@ + "/"@) {
                    assert(old(self)@.subrange(0, m + 1 as int) == prefix@ + "/"@);
                }
            }
            return DirEntryPath(self.0.clone());
        }
        assert(!crate::ingress::spec_starts_with(old(self)@, prefix@ + "/"@));
        DirEntryPath(self.0.clone())
    }
}

/// What a directory entry is on disk.
#[derive(Clone, Copy)]
pub enum EntryKind {
    File,
    Dir,
    Symlink,
    Other,
}

/// One entry of a directory listing: its repo-relative path and what it
/// is on disk.
#[derive(Clone)]
pub struct DirEntry {
    pub path: DirEntryPath,
    pub kind: EntryKind,
}

impl DirEntry {
    /// Package one listing entry.
    pub fn new(path: DirEntryPath, kind: EntryKind) -> (r: DirEntry)
        ensures
            r.path == path,
            r.kind == kind,
    {
        DirEntry { path, kind }
    }

    /// Whether the entry is a regular file.
    pub fn is_file(&mut self) -> (r: bool)
        ensures
            *final(self) == *old(self),
            r == (old(self).kind is File),
    {
        match self.kind {
            EntryKind::File => true,
            _ => false,
        }
    }

    /// Whether the entry is a directory.
    pub fn is_dir(&mut self) -> (r: bool)
        ensures
            *final(self) == *old(self),
            r == (old(self).kind is Dir),
    {
        match self.kind {
            EntryKind::Dir => true,
            _ => false,
        }
    }

    /// Whether the entry is a symbolic link.
    pub fn is_symlink(&mut self) -> (r: bool)
        ensures
            *final(self) == *old(self),
            r == (old(self).kind is Symlink),
    {
        match self.kind {
            EntryKind::Symlink => true,
            _ => false,
        }
    }

    /// The entry's repo-relative path.
    pub fn get_path(&mut self) -> (r: DirEntryPath)
        ensures
            *final(self) == *old(self),
            r@ == old(self).path@,
    {
        DirEntryPath(self.path.0.clone())
    }
}

/// The working-tree status bit of a newly created file.
pub const WT_NEW: u32 = 128;

/// The working-tree status bit of a modified file.
pub const WT_MODIFIED: u32 = 256;

/// The working-tree status bit of a deleted file.
pub const WT_DELETED: u32 = 512;

/// The working-tree status bit of a file whose type changed.
pub const WT_TYPECHANGE: u32 = 1024;

/// The working-tree status bit of a renamed file.
pub const WT_RENAMED: u32 = 2048;

/// One entry of a status snapshot: a repo-relative path and its raw
/// status bits.
#[derive(Clone)]
pub struct StatusEntry {
    pub path: String,
    pub bits: u32,
}

/// The paths among the entries whose bits meet the mask, in order.
pub open spec fn spec_mask_paths(entries: Seq<StatusEntry>, mask: u32) -> Seq<Seq<char>>
    decreases entries.len(),
{
    if entries.len() == 0 {
        Seq::<Seq<char>>::empty()
    } else {
        let rest = spec_mask_paths(entries.drop_first(), mask);
        if entries[0].bits & mask != 0 {
            seq![entries[0].path@] + rest
        } else {
            rest
        }
    }
}

/// The paths of a status query's `(path, bits)` pairs, in order: with
/// unmodified entries excluded from the query, these are exactly the
/// indexed paths whose status is not unmodified.
pub fn modified_paths(pairs: Vec<(String, u32)>) -> (r: Vec<String>)
    ensures
        r@.len() == pairs@.len(),
        forall|i: int| 0 <= i < pairs@.len() ==> #[trigger] r@[i] == pairs@[i].0,
{
    let mut out: Vec<String> = Vec::new();
    let mut i: usize = 0;
    while i < pairs.len()
        invariant
            i <= pairs@.len(),
            out@.len() == i,
            forall|j: int| 0 <= j < i ==> #[trigger] out@[j] == pairs@[j].0,
        decreases pairs@.len() - i,
    {
        out.push(pairs[i].0.clone());
        i = i + 1;
    }
    out
}

/// A snapshot of the repository's status at the moment of the query.
#[derive(Clone)]
pub struct Status {
    pub statuses: Vec<StatusEntry>,
}

impl Status {
    /// The view of the snapshot's entries.
    pub open spec fn entries(&self) -> Seq<StatusEntry> {
        self.statuses@
    }

    /// The snapshot of a status query's `(path, bits)` pairs: one entry
    /// per pair, in order, carrying exactly that path and those bits.
    /// The snapshot owns its entries, so later working-tree changes
    /// cannot reach into it.
    pub fn from_pairs(pairs: Vec<(String, u32)>) -> (st: Status)
        ensures
            st.entries().len() == pairs@.len(),
            forall|i: int|
                0 <= i < pairs@.len() ==> (#[trigger] st.entries()[i]).path == pairs@[i].0
                    && st.entries()[i].bits == pairs@[i].1,
    {
        let mut statuses: Vec<StatusEntry> = Vec::new();
        let mut i: usize = 0;
        while i < pairs.len()
            invariant
                i <= pairs@.len(),
                statuses@.len() == i,
                forall|j: int|
                    0 <= j < i ==> (#[trigger] statuses@[j]).path == pairs@[j].0
                        && statuses@[j].bits == pairs@[j].1,
            decreases pairs@.len() - i,
        {
            statuses.push(StatusEntry { path: pairs[i].0.clone(), bits: pairs[i].1 });
            i = i + 1;
        }
        Status { statuses }
    }

    fn filter_by_mask(&self, mask: u32) -> (r: Vec<DirEntryPath>)
        ensures
            r.deep_view() == spec_mask_paths(self.entries(), mask),
    {
        let n = self.statuses.len();
        let mut out: Vec<DirEntryPath> = Vec::new();
        let mut i: usize = 0;
        proof {
            assert(self.entries().skip(0) =~= self.entries());
            assert(Seq::<Seq<char>>::empty() + spec_mask_paths(self.entries(), mask)
                =~= spec_mask_paths(self.entries(), mask));
        }
        while i < n
            invariant
                i <= n,
                n == self.entries().len(),
                spec_mask_paths(self.entries(), mask) == out.deep_view() + spec_mask_paths(
                    self.entries().skip(i as int),
                    mask,
                ),
            decreases n - i,
        {
            let ghost rest = self.entries().skip(i as int);
            proof {
                assert(rest[0] == self.entries()[i as int]);
                assert(rest.drop_first() =~= self.entries().skip(i + 1));
            }
            if self.statuses[i].bits & mask != 0 {
                let ghost before = out.deep_view();
                out.push(DirEntryPath(self.statuses[i].path.clone()));
                proof {
                    assert(out.deep_view() =~= before.push(self.entries()[i as int].path@));
                    assert(before.push(self.entries()[i as int].path@) + spec_mask_paths(
                        self.entries().skip(i + 1),
                        mask,
                    ) =~= before + spec_mask_paths(rest, mask));
                }
            }
            i = i + 1;
        }
        proof {
            assert(self.entries().skip(n as int) =~= Seq::<StatusEntry>::empty());
            assert(out.deep_view() + Seq::<Seq<char>>::empty() =~= out.deep_view());
        }
        out
    }

    /// The working-tree paths that changed: modified, renamed or with a
    /// type change.
    pub fn pub_changed(&mut self) -> (r: Vec<DirEntryPath>)
        ensures
            *final(self) == *old(self),
            r.deep_view() == spec_mask_paths(
                old(self).entries(),
                (WT_MODIFIED + WT_TYPECHANGE + WT_RENAMED) as u32,
            ),
    {
        self.filter_by_mask(WT_MODIFIED + WT_TYPECHANGE + WT_RENAMED)
    }

    /// The working-tree paths newly added.
    pub fn pub_added(&mut self) -> (r: Vec<DirEntryPath>)
        ensures
            *final(self) == *old(self),
            r.deep_view() == spec_mask_paths(old(self).entries(), WT_NEW),
    {
        self.filter_by_mask(WT_NEW)
    }

    /// The working-tree paths deleted.
    pub fn pub_deleted(&mut self) -> (r: Vec<DirEntryPath>)
        ensures
            *final(self) == *old(self),
            r.deep_view() == spec_mask_paths(old(self).entries(), WT_DELETED),
    {
        self.filter_by_mask(WT_DELETED)
    }
}

/// The refspec that pushes a local branch.
pub open spec fn spec_push_refspec(localref: Seq<char>) -> Seq<char> {
    "refs/heads/"@ + localref
}

/// The current checkout, bound into scripts as `repo`; extra clones get
/// their own handle. Paths are validated against `dir` before any I/O.
pub struct LocalRepo {
    dir: String,
    github_owner: String,
    github_name: String,
    author_name: String,
    author_email: String,
    repo: git2::Repository,
}

impl LocalRepo {
    /// The checkout directory.
    pub closed spec fn dir_view(&self) -> Seq<char> {
        self.dir@
    }

    /// The repository owner on the hosting service.
    pub closed spec fn owner_view(&self) -> Seq<char> {
        self.github_owner@
    }

    /// The repository name on the hosting service.
    pub closed spec fn name_view(&self) -> Seq<char> {
        self.github_name@
    }

    /// Bind a handle to an opened repository at `dir`, with the commit
    /// identity to use.
    pub fn new(
        dir: String,
        github_owner: String,
        github_name: String,
        author_name: String,
        author_email: String,
        repo: git2::Repository,
    ) -> (r: LocalRepo)
        ensures
            r.dir_view() == dir@,
            r.owner_view() == github_owner@,
            r.name_view() == github_name@,
    {
        LocalRepo { dir, github_owner, github_name, author_name, author_email, repo }
    }

    /// Open the repository at `dir` and bind a handle to it.
    pub fn open(
        dir: String,
        github_owner: String,
        github_name: String,
        author_name: String,
        author_email: String,
    ) -> (r: Result<LocalRepo, Error>)
        ensures
            r matches Ok(h) ==> (h.dir_view() == dir@ && h.owner_view() == github_owner@
                && h.name_view() == github_name@),
            r matches Err(e) ==> e is Checkout,
    {
        match gitio::git_open(dir.as_str()) {
            Ok(repo) => Ok(
                LocalRepo::new(dir, github_owner, github_name, author_name, author_email, repo),
            ),
            Err(detail) => Err(Error::Checkout(detail)),
        }
    }

    /// The checkout directory as a string.
    pub fn dir_str(&self) -> (r: String)
        ensures
            r@ == self.dir_view(),
    {
        self.dir.clone()
    }

    /// The repository owner as a string.
    pub fn owner_str(&self) -> (r: String)
        ensures
            r@ == self.owner_view(),
    {
        self.github_owner.clone()
    }

    /// The repository name as a string.
    pub fn name_str(&self) -> (r: String)
        ensures
            r@ == self.name_view(),
    {
        self.github_name.clone()
    }

    /// The canonical target of a read or listing: the path joined under
    /// the checkout, canonicalized, and required to stay inside it. Any
    /// path that fails to resolve, or resolves outside, is rejected —
    /// every path handed back begins with the checkout directory.
    pub fn resolve_read_path(&self, path: &str) -> (r: Result<String, Error>)
        ensures
            r matches Ok(p) ==> path_within(p@, self.dir_view()),
    {
        let joined = join_path(self.dir.as_str(), path);
        match gitio::canonicalize_path(joined.as_str()) {
            Some(canon) => {
                if path_within_check(canon.as_str(), self.dir.as_str()) {
                    Ok(canon)
                } else {
                    Err(Error::NotFound)
                }
            },
            None => Err(Error::NotFound),
        }
    }

    /// The target of a write: any path holding a parent-directory
    /// component is rejected before the filesystem is looked at, and the
    /// rest are joined under the checkout, where they stay.
    pub fn resolve_write_path(&self, path: &str) -> (r: Result<String, Error>)
        ensures
            has_parent_component(path@) ==> (r matches Err(e) && e is PathEscape),
            !has_parent_component(path@) ==> (r matches Ok(p) && p@ == spec_join_path(
                self.dir_view(),
                path@,
            )),
    {
        if check_parent_component(path) {
            Err(Error::PathEscape)
        } else {
            Ok(join_path(self.dir.as_str(), path))
        }
    }

    /// Stage a repo-relative path into the index.
    pub fn add(&self, path: &str) -> (r: Result<(), Error>)
        ensures
            r matches Err(e) ==> e is Checkout,
    {
        match gitio::git_add_path(&self.repo, path) {
            Ok(()) => Ok(()),
            Err(e) => Err(Error::Checkout(e)),
        }
    }

    /// Stage each path, keeping the first failure.
    pub fn add_list(&self, paths: &Vec<String>) -> (r: Result<(), Error>)
        ensures
            r matches Err(e) ==> e is Checkout,
    {
        let mut failure: Option<Error> = None;
        let mut i: usize = 0;
        while i < paths.len()
            invariant
                failure matches Some(e) ==> e is Checkout,
            decreases paths@.len() - i,
        {
            if let Err(e) = self.add(paths[i].as_str()) {
                if failure.is_none() {
                    failure = Some(e);
                }
            }
            i = i + 1;
        }
        match failure {
            Some(e) => Err(e),
            None => Ok(()),
        }
    }

    /// Snapshot the index into a tree and commit it onto HEAD under the
    /// configured author identity.
    pub fn pub_commit(&self, message: &str) -> (r: Result<(), Error>)
        ensures
            r matches Err(e) ==> e is Checkout,
    {
        match gitio::git_commit_head(
            &self.repo,
            self.author_name.as_str(),
            self.author_email.as_str(),
            message,
        ) {
            Ok(()) => Ok(()),
            Err(e) => Err(Error::Checkout(e)),
        }
    }

    /// Create or force-update a local branch pointing at HEAD.
    pub fn pub_branch(&self, branch: &str) -> (r: Result<(), Error>)
        ensures
            r matches Err(e) ==> e is Checkout,
    {
        match gitio::git_branch_at(&self.repo, branch, "HEAD", true) {
            Ok(()) => Ok(()),
            Err(e) => Err(Error::Checkout(e)),
        }
    }

    /// Check out a new local branch at HEAD.
    pub fn checkout_new_branch(&self, name: &str) -> (r: Result<(), Error>)
        ensures
            r matches Err(e) ==> e is Checkout,
    {
        self.checkout_new_branch_target(name, "HEAD")
    }

    /// Create a local branch at the given target revision.
    pub fn checkout_new_branch_target(&self, name: &str, target: &str) -> (r: Result<(), Error>)
        ensures
            r matches Err(e) ==> e is Checkout,
    {
        match gitio::git_branch_at(&self.repo, name, target, false) {
            Ok(()) => Ok(()),
            Err(e) => Err(Error::Checkout(e)),
        }
    }

    /// Fetch the given head from `origin` and hard-reset the working
    /// tree to it.
    pub fn checkout_remote_head(&self, head: &str) -> (r: Result<(), Error>)
        ensures
            r matches Err(e) ==> e is Checkout,
    {
        let refspec = crate::job::make_refspec(head);
        if let Err(e) = gitio::git_fetch_origin(&self.repo, refspec.as_str()) {
            return Err(Error::Checkout(e));
        }
        match gitio::git_reset_hard(&self.repo, head) {
            Ok(()) => Ok(()),
            Err(e) => Err(Error::Checkout(e)),
        }
    }

    /// Push `refs/heads/<localref>` to `origin`, authenticating with the
    /// given installation token as the HTTPS password.
    pub fn pub_push(&self, localref: &str, token: &str) -> (r: Result<(), Error>)
        ensures
            r matches Err(e) ==> e is Checkout,
    {
        let mut refspec = "refs/heads/".to_owned();
        refspec.append(localref);
        assert(refspec@ == spec_push_refspec(localref@));
        match gitio::git_push_with_token(&self.repo, refspec.as_str(), token) {
            Ok(()) => Ok(()),
            Err(e) => Err(Error::Checkout(e)),
        }
    }

    /// Open a pull request on the remote via the hosting API, using a
    /// freshly minted installation token from the credential broker.
    pub fn pub_create_pr(
        &self,
        broker: &crate::host::Broker,
        title: &str,
        body: &str,
        head: &str,
        base: &str,
    ) -> (r: Result<(), Error>)
        ensures
            r matches Err(e) ==> e is Checkout,
    {
        match broker.open_pull_request(
            self.github_owner.as_str(),
            self.github_name.as_str(),
            title,
            body,
            head,
            base,
        ) {
            Ok(()) => Ok(()),
            Err(e) => Err(Error::Checkout(e.message())),
        }
    }

    /// The indexed paths whose status is not unmodified: the status
    /// call's pairs, converted by `modified_paths` — the contracted
    /// step, so the list mirrors exactly what the one call returned.
    pub fn list_modified(&self) -> (r: Result<Vec<String>, Error>)
        ensures
            r matches Err(e) ==> e is Checkout,
    {
        match gitio::git_statuses(&self.repo, false) {
            Ok(pairs) => Ok(modified_paths(pairs)),
            Err(e) => Err(Error::Checkout(e)),
        }
    }

    /// A snapshot of the working tree's status: the status call's pairs,
    /// converted by `Status::from_pairs` — the contracted step, so the
    /// snapshot's entries mirror exactly what the one call returned.
    pub fn pub_status(&self) -> (r: Result<Status, Error>)
        ensures
            r matches Err(e) ==> e is Checkout,
    {
        match gitio::git_statuses(&self.repo, false) {
            Ok(pairs) => Ok(Status::from_pairs(pairs)),
            Err(e) => Err(Error::Checkout(e)),
        }
    }
}

/// The position of the first slash, or -1 when there is none.
pub open spec fn slash_index(s: Seq<char>) -> int
    decreases s.len(),
{
    if s.len() == 0 {
        -1
    } else if s[0] == '/' {
        0
    } else {
        let r = slash_index(s.drop_first());
        if r < 0 {
            -1
        } else {
            r + 1
        }
    }
}

/// Up to the first slash, the index pins `slash_index` down.
proof fn lemma_slash_index(s: Seq<char>, k: int)
    requires
        0 <= k <= s.len(),
        forall|j: int| 0 <= j < k ==> s[j] != '/',
        k < s.len() ==> s[k] == '/',
    ensures
        k < s.len() ==> slash_index(s) == k,
        k == s.len() ==> slash_index(s) == -1,
    decreases s.len(),
{
    if s.len() == 0 {
    } else if s[0] == '/' {
        assert(k == 0);
    } else {
        assert(k >= 1);
        lemma_slash_index(s.drop_first(), k - 1);
    }
}

/// A repository name with its slashes replaced by underscores: the
/// directory name of an extra clone.
pub open spec fn spec_underscored(s: Seq<char>) -> Seq<char> {
    s.map_values(|c: char| if c == '/' { '_' } else { c })
}

/// Replace slashes with underscores.
pub fn underscored(s: &str) -> (r: String)
    ensures
        r@ == spec_underscored(s@),
{
    let chars = to_chars(s);
    let n = chars.len();
    let mut out: Vec<char> = Vec::new();
    let mut i: usize = 0;
    while i < n
        invariant
            i <= n,
            n == s@.len(),
            chars@ == s@,
            out@ == spec_underscored(s@.subrange(0, i as int)),
        decreases n - i,
    {
        if chars[i] == '/' {
            out.push('_');
        } else {
            out.push(chars[i]);
        }
        i = i + 1;
        assert(out@ =~= spec_underscored(s@.subrange(0, i as int)));
    }
    assert(s@.subrange(0, n as int) =~= s@);
    chars_to_string(&out)
}

/// The HTTPS URL of a repository on the hosting service.
pub open spec fn spec_clone_url(name: Seq<char>) -> Seq<char> {
    "https://github.com/"@ + name
}

/// The directory an extra clone lives in, under the clone root.
pub open spec fn spec_clone_dir(root: Seq<char>, name: Seq<char>) -> Seq<char> {
    root + "/"@ + spec_underscored(name)
}

/// The factory bound into scripts as `Git`: it materializes additional
/// clones under the configured root.
pub struct Git {
    /// The checkout owning the running script.
    pub path: String,
    /// The root that extra clones live under.
    pub root: String,
    /// The commit identity handed to new handles.
    pub author_name: String,
    /// The commit identity handed to new handles.
    pub author_email: String,
}

impl Git {
    /// Clone (or reuse) `https://<host>/<owner>/<name>` under the root
    /// and reset it to the given head. A name without a slash is
    /// rejected.
    pub fn clone(&mut self, repo: String, head: &str) -> (r: Result<LocalRepo, Error>)
        ensures
            *final(self) == *old(self),
            slash_index(repo@) < 0 ==> (r matches Err(e) && e is InvalidGithubRepoName),
            r matches Ok(lr) ==> (slash_index(repo@) >= 0 && lr.dir_view() == spec_clone_dir(
                old(self).root@,
                repo@,
            ) && lr.owner_view() == repo@.take(slash_index(repo@)) && lr.name_view()
                == repo@.skip(slash_index(repo@) + 1)),
            r matches Err(e) ==> (e matches Error::NoDirectory(p) ==> p@ == spec_clone_dir(
                old(self).root@,
                repo@,
            )),
            r matches Err(e) ==> (e is InvalidGithubRepoName <==> slash_index(repo@) < 0),
            r matches Err(e) ==> (e is InvalidGithubRepoName || e is Checkout
                || e is NoDirectory),
    {
        let chars = to_chars(repo.as_str());
        let n = chars.len();
        let mut k: usize = 0;
        while k < n && chars[k] != '/'
            invariant
                k <= n,
                n == repo@.len(),
                chars@ == repo@,
                n == chars@.len(),
                forall|j: int| 0 <= j < k ==> repo@[j] != '/',
            decreases n - k,
        {
            k = k + 1;
        }
        proof {
            lemma_slash_index(repo@, k as int);
        }
        if k == n {
            return Err(Error::InvalidGithubRepoName);
        }
        let owner = repo.as_str().substring_char(0, k);
        assert(owner@ =~= repo@.take(k as int));
        let name = repo.as_str().substring_char(k + 1, n);
        assert(name@ =~= repo@.skip(k as int + 1));
        let mut url = "https://github.com/".to_owned();
        url.append(repo.as_str());
        assert(url@ == spec_clone_url(repo@));
        let mut dir = self.root.clone();
        dir.append("/");
        let under = underscored(repo.as_str());
        dir.append(under.as_str());
        assert(dir@ == spec_clone_dir(self.root@, repo@));
        let git_repo = if gitio::path_is_dir(dir.as_str()) {
            match gitio::git_open(dir.as_str()) {
                Ok(git_repo) => git_repo,
                Err(e) => {
                    return Err(Error::Checkout(e));
                },
            }
        } else if gitio::path_exists(dir.as_str()) {
            return Err(Error::NoDirectory(dir));
        } else {
            match gitio::git_clone(url.as_str(), dir.as_str()) {
                Ok(git_repo) => git_repo,
                Err(e) => {
                    return Err(Error::Checkout(e));
                },
            }
        };
        let handle = LocalRepo::new(
            dir,
            owner.to_owned(),
            name.to_owned(),
            self.author_name.clone(),
            self.author_email.clone(),
            git_repo,
        );
        if let Err(e) = handle.checkout_remote_head(head) {
            return Err(e);
        }
        Ok(handle)
    }
}

} // verus!
