//! Invocation of `cargo` subprocesses on behalf of automation scripts,
//! and the captured result handed back to the script.
//!
//! The subprocess itself is spawned outside the library; this module
//! holds the invocation data and the result model that scripts inspect.

use vstd::prelude::*;
use crate::shellwords::{shell_split, split_shell_words};

verus! {

/// A pending `cargo` invocation: its arguments and working directory.
pub struct Run {
    pub args: Vec<String>,
    pub dir: String,
}

impl Run {
    /// Record a `cargo` invocation to be spawned later.
    pub fn new(args: Vec<String>, dir: String) -> (r: Run)
        ensures
            r.args == args,
            r.dir == dir,
    {
        Run { args, dir }
    }
}

/// The captured outcome of one `cargo` subprocess: exit code and output.
///
/// A spawn failure is represented as exit code -1 with a diagnostic on
/// stderr, not as an error, so that scripts can inspect it.
#[derive(Clone)]
pub struct CargoResult {
    pub exit_code: Option<i32>,
    pub stdout: String,
    pub stderr: String,
}

impl CargoResult {
    /// Package the captured output of a subprocess that ran.
    pub fn from_output(exit_code: Option<i32>, stdout: String, stderr: String) -> (r:
        CargoResult)
        ensures
            r.exit_code == exit_code,
            r.stdout == stdout,
            r.stderr == stderr,
    {
        CargoResult { exit_code, stdout, stderr }
    }

    /// Package a failure to spawn the subprocess at all: exit code -1 and
    /// the diagnostic as stderr, so `is_ok` reports failure.
    pub fn from_spawn_error(detail: String) -> (r: CargoResult)
        ensures
            r.exit_code == Some(-1i32),
            r.stdout@ == Seq::<char>::empty(),
            r.stderr == detail,
            !r.spec_is_ok(),
    {
        CargoResult { exit_code: Some(-1), stdout: String::new(), stderr: detail }
    }

    /// Whether the subprocess exited successfully.
    pub open spec fn spec_is_ok(&self) -> bool {
        self.exit_code == Some(0i32)
    }

    /// Whether the subprocess exited successfully (exit code 0).
    pub fn is_ok(&mut self) -> (r: bool)
        ensures
            *old(self) == *final(self),
            r == old(self).spec_is_ok(),
    {
        match self.exit_code {
            Some(code) => code == 0,
            None => false,
        }
    }

    /// The captured standard error stream.
    pub fn get_stderr(&mut self) -> (r: String)
        ensures
            *old(self) == *final(self),
            r@ == old(self).stderr@,
    {
        self.stderr.clone()
    }

    /// The captured standard output stream.
    pub fn get_stdout(&mut self) -> (r: String)
        ensures
            *old(self) == *final(self),
            r@ == old(self).stdout@,
    {
        self.stdout.clone()
    }
}

/// Shell-split the string a script hands to the `cargo` form into the
/// argument vector for the subprocess; a string that does not parse as
/// shell words is rejected.
pub fn parse_cargo_args(command: &str) -> (r: Result<Vec<String>, crate::job::Error>)
    ensures
        r is Ok <==> shell_split(command@) is Some,
        r matches Ok(v) ==> Some(v.deep_view()) == shell_split(command@),
        r matches Err(e) ==> e is CargoCmdParse,
{
    match split_shell_words(command) {
        Some(args) => Ok(args),
        None => Err(crate::job::Error::CargoCmdParse),
    }
}

} // verus!
