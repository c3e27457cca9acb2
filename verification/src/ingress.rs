//! Webhook ingress: turn an authenticated issue-comment event into a
//! queued job. The comment's first line is tokenized, mapped to a
//! script path with its arguments, and keyed for the queue; a comment
//! that does not carry a well-formed command is dropped.

use vstd::prelude::*;
use vstd::string::*;
use crate::job::{Error, Job, Repo, User, Issue};
use crate::shellwords::{first_line, line_tokens, take_first_line, tokenize_line};
use crate::text::str_eq;
use crate::webhook::{signature_ok, verify_signature};

verus! {

/// A token with any single leading slash removed.
pub open spec fn strip_leading_slash(t: Seq<char>) -> Seq<char> {
    if t.len() > 0 && t[0] == '/' {
        t.drop_first()
    } else {
        t
    }
}

/// The script path a command maps to: the first token (minus its
/// leading slash) names a directory under `.github`, the second names
/// the script file.
pub open spec fn spec_script_path(t0: Seq<char>, t1: Seq<char>) -> Seq<char> {
    ".github/"@ + strip_leading_slash(t0) + "/"@ + t1 + ".rhai"@
}

/// The prepared command: the script path, then the remaining tokens as
/// script arguments.
pub open spec fn spec_prepare(tokens: Seq<Seq<char>>) -> Seq<Seq<char>>
    recommends
        tokens.len() >= 2,
{
    seq![spec_script_path(tokens[0], tokens[1])] + tokens.skip(2)
}

/// Strip one leading slash from a token.
pub fn strip_slash(t: &str) -> (r: String)
    ensures
        r@ == strip_leading_slash(t@),
{
    let n = t.unicode_len();
    if n > 0 && t.get_char(0) == '/' {
        let rest = t.substring_char(1, n);
        assert(rest@ =~= t@.drop_first());
        rest.to_owned()
    } else {
        t.to_owned()
    }
}

/// Map a tokenized command to the script path it names followed by its
/// arguments; a command of fewer than two tokens is rejected.
pub fn prepare_command(command: Vec<String>) -> (r: Result<Vec<String>, Error>)
    ensures
        command@.len() < 2 ==> (r matches Err(e) && e is NoCmd),
        command@.len() >= 2 ==> (r matches Ok(v) && v.deep_view() == spec_prepare(
            command.deep_view(),
        )),
{
    if command.len() < 2 {
        return Err(Error::NoCmd);
    }
    let mut path = ".github/".to_owned();
    let dir = strip_slash(command[0].as_str());
    path.append(dir.as_str());
    path.append("/");
    path.append(command[1].as_str());
    path.append(".rhai");
    assert(path@ == spec_script_path(command@[0]@, command@[1]@));
    let mut out: Vec<String> = Vec::new();
    out.push(path);
    let mut i: usize = 2;
    while i < command.len()
        invariant
            2 <= i <= command@.len(),
            out.deep_view() == seq![
                spec_script_path(command.deep_view()[0], command.deep_view()[1]),
            ] + command.deep_view().subrange(2, i as int),
        decreases command@.len() - i,
    {
        let ghost before = out.deep_view();
        out.push(command[i].clone());
        proof {
            assert(command.deep_view()[i as int] == command@[i as int]@);
            assert(out.deep_view() =~= before.push(command.deep_view()[i as int]));
            assert(out.deep_view() =~= seq![
                spec_script_path(command.deep_view()[0], command.deep_view()[1]),
            ] + command.deep_view().subrange(2, i + 1 as int));
        }
        i = i + 1;
    }
    proof {
        assert(command.deep_view().subrange(2, command@.len() as int) =~= command.deep_view().skip(
            2,
        ));
    }
    Ok(out)
}

/// The tokens joined with single spaces.
pub open spec fn spec_join(tokens: Seq<Seq<char>>) -> Seq<char>
    decreases tokens.len(),
{
    if tokens.len() == 0 {
        Seq::empty()
    } else if tokens.len() == 1 {
        tokens[0]
    } else {
        tokens[0] + " "@ + spec_join(tokens.drop_first())
    }
}

fn join_from(v: &Vec<String>, i: usize) -> (r: String)
    requires
        i <= v@.len(),
    ensures
        r@ == spec_join(v.deep_view().skip(i as int)),
    decreases v@.len() - i,
{
    if i == v.len() {
        assert(v.deep_view().skip(i as int) =~= Seq::<Seq<char>>::empty());
        String::new()
    } else if i + 1 == v.len() {
        assert(v.deep_view().skip(i as int).len() == 1);
        assert(v.deep_view().skip(i as int)[0] == v.deep_view()[i as int]);
        v[i].clone()
    } else {
        let mut s = v[i].clone();
        s.append(" ");
        let rest = join_from(v, i + 1);
        s.append(rest.as_str());
        proof {
            assert(v.deep_view().skip(i as int).drop_first() =~= v.deep_view().skip(i + 1 as int));
            assert(v.deep_view().skip(i as int)[0] == v.deep_view()[i as int]);
        }
        s
    }
}

/// Join tokens with single spaces.
pub fn join_tokens(v: &Vec<String>) -> (r: String)
    ensures
        r@ == spec_join(v.deep_view()),
{
    let r = join_from(v, 0);
    assert(v.deep_view().skip(0) =~= v.deep_view());
    r
}

/// The queue key of a command: repository name, the joined command and
/// a fresh unique suffix, so repeated invocations do not dedupe.
pub open spec fn spec_job_key(name: Seq<char>, tokens: Seq<Seq<char>>, uuid: Seq<char>) -> Seq<
    char,
> {
    name + "_"@ + spec_join(tokens) + "_"@ + uuid
}

/// Relies on uuid::Uuid::new_v4 and its hyphenated rendering: a fresh
/// random identifier of 36 characters; nothing else can be promised of
/// a random value.
#[verifier::external_body]
pub fn fresh_uuid() -> (r: String)
    ensures
        r@.len() == 36,
{
    uuid::Uuid::new_v4().to_string()
}

/// Whether `p` heads `s`.
pub open spec fn spec_starts_with(s: Seq<char>, p: Seq<char>) -> bool {
    s.len() >= p.len() && s.subrange(0, p.len() as int) == p
}

/// Whether a string starts with the given prefix.
pub fn starts_with(s: &str, p: &str) -> (r: bool)
    ensures
        r == spec_starts_with(s@, p@),
{
    let n = s.unicode_len();
    let m = p.unicode_len();
    if n < m {
        return false;
    }
    let head = s.substring_char(0, m);
    str_eq(head, p)
}

/// The tokens of a comment body's command line: its first line, shell
/// split with a whitespace fallback.
pub open spec fn command_tokens(body: Seq<char>) -> Seq<Seq<char>> {
    line_tokens(first_line(body))
}

/// Turn one issue-comment body into a keyed job.
///
/// A body that does not start with the command prefix, or whose first
/// line tokenizes to fewer than two words, yields nothing and is
/// dropped. An accepted comment yields the queue key and a job whose
/// command holds the script path and arguments — so every accepted
/// webhook's command line had at least the prefix token and a
/// subcommand.
pub fn handle_issue_comment(
    prefix: &str,
    body: &str,
    repo: Repo,
    issue_number: u64,
    user_login: String,
    uuid: String,
) -> (r: Option<(String, Job)>)
    ensures
        !spec_starts_with(body@, prefix@) ==> r is None,
        command_tokens(body@).len() < 2 ==> r is None,
        r is Some ==> command_tokens(body@).len() >= 2,
        spec_starts_with(body@, prefix@) && command_tokens(body@).len() >= 2 ==> (r matches Some(
            kj,
        ) && kj.0@ == spec_job_key(repo.name@, command_tokens(body@), uuid@)
            && kj.1.command.deep_view() == spec_prepare(command_tokens(body@))
            && kj.1.user.login == user_login && kj.1.repository == repo && kj.1.issue.number
            == issue_number),
{
    if !starts_with(body, prefix) {
        return None;
    }
    let line = take_first_line(body);
    let tokens = tokenize_line(line.as_str());
    if tokens.len() < 2 {
        proof {
            assert(tokens.deep_view().len() == tokens@.len());
        }
        return None;
    }
    let mut key = repo.name.clone();
    key.append("_");
    let joined = join_tokens(&tokens);
    key.append(joined.as_str());
    key.append("_");
    key.append(uuid.as_str());
    let command = match prepare_command(tokens) {
        Ok(command) => command,
        Err(_) => {
            return None;
        },
    };
    let job = Job { command, user: User { login: user_login }, repository: repo, issue: Issue {
        number: issue_number,
    } };
    Some((key, job))
}

/// Turn one issue-comment body into a keyed job under a freshly minted
/// unique suffix — the deployed ingress path. The suffix keeps repeated
/// invocations of the same command from deduping each other; everything
/// else is as `handle_issue_comment` promises.
pub fn ingest_issue_comment(
    prefix: &str,
    body: &str,
    repo: Repo,
    issue_number: u64,
    user_login: String,
) -> (r: Option<(String, Job)>)
    ensures
        !spec_starts_with(body@, prefix@) ==> r is None,
        command_tokens(body@).len() < 2 ==> r is None,
        r is Some ==> command_tokens(body@).len() >= 2,
        spec_starts_with(body@, prefix@) && command_tokens(body@).len() >= 2 ==> (r matches Some(
            kj,
        ) && (exists|u: Seq<char>|
            u.len() == 36 && kj.0@ == spec_job_key(repo.name@, command_tokens(body@), u))
            && kj.1.command.deep_view() == spec_prepare(command_tokens(body@))
            && kj.1.user.login == user_login && kj.1.repository == repo && kj.1.issue.number
            == issue_number),
{
    let uuid = fresh_uuid();
    let ghost u = uuid@;
    let r = handle_issue_comment(prefix, body, repo, issue_number, user_login, uuid);
    proof {
        if spec_starts_with(body@, prefix@) && command_tokens(body@).len() >= 2 {
            assert(u.len() == 36);
        }
    }
    r
}

/// Answer one webhook delivery.
///
/// The signature is checked first: a delivery whose signature header
/// does not authenticate the raw body is answered 401 with nothing
/// enqueued. An authentic delivery is answered 200; it carries a job to
/// enqueue exactly when it is an issue comment whose body heads with
/// the prefix and tokenizes to at least two words.
pub fn ingress_decision(
    secret: &[u8],
    raw_body: &[u8],
    signature: &str,
    comment: Option<&str>,
    prefix: &str,
    repo: Option<Repo>,
    issue_number: u64,
    user_login: String,
    uuid: String,
) -> (r: (u16, Option<(String, Job)>))
    ensures
        !signature_ok(secret@, raw_body@, signature@) ==> (r.0 == 401 && r.1 is None),
        signature_ok(secret@, raw_body@, signature@) ==> r.0 == 200,
        signature_ok(secret@, raw_body@, signature@) && (comment is None || repo is None)
            ==> r.1 is None,
        signature_ok(secret@, raw_body@, signature@) && comment is Some && (!spec_starts_with(
            comment.unwrap()@,
            prefix@,
        ) || command_tokens(comment.unwrap()@).len() < 2) ==> r.1 is None,
        signature_ok(secret@, raw_body@, signature@) && comment is Some && repo is Some
            && spec_starts_with(comment.unwrap()@, prefix@) && command_tokens(
            comment.unwrap()@,
        ).len() >= 2 ==> (r.1 matches Some(kj) && kj.0@ == spec_job_key(
            repo.unwrap().name@,
            command_tokens(comment.unwrap()@),
            uuid@,
        ) && kj.1.command.deep_view() == spec_prepare(command_tokens(comment.unwrap()@))
            && kj.1.user.login == user_login && kj.1.repository == repo.unwrap()
            && kj.1.issue.number == issue_number),
{
    if !verify_signature(secret, raw_body, signature) {
        return (401, None);
    }
    let body = match comment {
        Some(body) => body,
        None => {
            return (200, None);
        },
    };
    let repo = match repo {
        Some(repo) => repo,
        None => {
            return (200, None);
        },
    };
    let queued = handle_issue_comment(prefix, body, repo, issue_number, user_login, uuid);
    (200, queued)
}

} // verus!
