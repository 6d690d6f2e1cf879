//! The settings of one watch.

use crate::resolve::opt_text;
use crate::shell::Shell;
use vstd::prelude::*;

verus! {

/// The mathematical content of the settings.
pub struct ArgsModel {
    pub debounce: nat,
    pub initial: bool,
    pub cwd: Option<Seq<char>>,
    pub shell: Shell,
    pub cmd: Seq<char>,
    pub pattern: Seq<char>,
}

/// The working directory that the settings select when the process runs in
/// `current`.
pub open spec fn working_dir_of(args: ArgsModel, current: Seq<char>) -> Seq<char> {
    match args.cwd {
        Some(dir) => dir,
        None => current,
    }
}

/// What to watch, what to run and how.
#[derive(Debug, Clone)]
pub struct Args {
    debounce: usize,
    initial: bool,
    cwd: Option<String>,
    shell: Shell,
    cmd: String,
    pattern: String,
}

impl View for Args {
    type V = ArgsModel;

    closed spec fn view(&self) -> ArgsModel {
        ArgsModel {
            debounce: self.debounce as nat,
            initial: self.initial,
            cwd: opt_text(self.cwd),
            shell: self.shell,
            cmd: self.cmd@,
            pattern: self.pattern@,
        }
    }
}

impl Default for Args {
    fn default() -> (r: Args)
        ensures
            r@ == (ArgsModel {
                debounce: 0,
                initial: false,
                cwd: None,
                shell: Shell::Bash,
                cmd: Seq::empty(),
                pattern: Seq::empty(),
            }),
    {
        Args {
            debounce: 0,
            initial: false,
            cwd: None,
            shell: Shell::Bash,
            cmd: String::new(),
            pattern: String::new(),
        }
    }
}

impl Args {
    /// Settings with the given debounce window in milliseconds, initial-run
    /// switch, working directory, shell, command line and glob pattern.
    pub fn new(
        debounce: usize,
        initial: bool,
        cwd: Option<String>,
        shell: Shell,
        cmd: String,
        pattern: String,
    ) -> (r: Args)
        ensures
            r@ == (ArgsModel {
                debounce: debounce as nat,
                initial,
                cwd: opt_text(cwd),
                shell,
                cmd: cmd@,
                pattern: pattern@,
            }),
    {
        Args { debounce, initial, cwd, shell, cmd, pattern }
    }

    /// The debounce window in milliseconds.
    pub fn debounce(&self) -> (r: usize)
        ensures
            r as nat == self@.debounce,
    {
        self.debounce
    }

    /// The debounce window in milliseconds, as the debouncer takes it.
    pub fn debounce_millis(&self) -> (r: u64)
        ensures
            r as nat == self@.debounce,
    {
        self.debounce as u64
    }

    /// Whether the command runs once before watching begins.
    pub fn initial(&self) -> (r: bool)
        ensures
            r == self@.initial,
    {
        self.initial
    }

    /// The configured working directory, if any.
    pub fn cwd(&self) -> (r: Option<&str>)
        ensures
            r is Some <==> self@.cwd is Some,
            r is Some ==> r->0@ == self@.cwd->0,
    {
        match &self.cwd {
            Some(dir) => Some(dir.as_str()),
            None => None,
        }
    }

    /// The shell that runs the command.
    pub fn shell(&self) -> (r: Shell)
        ensures
            r == self@.shell,
    {
        self.shell
    }

    /// The command line.
    pub fn cmd(&self) -> (r: &str)
        ensures
            r@ == self@.cmd,
    {
        self.cmd.as_str()
    }

    /// The glob pattern.
    pub fn pattern(&self) -> (r: &str)
        ensures
            r@ == self@.pattern,
    {
        self.pattern.as_str()
    }

    /// The working directory: the configured one, or `current` where none is
    /// configured.
    pub fn working_dir(&self, current: &str) -> (r: String)
        ensures
            r@ == working_dir_of(self@, current@),
    {
        match &self.cwd {
            Some(dir) => dir.clone(),
            None => String::from_str(current),
        }
    }
}

} // verus!
