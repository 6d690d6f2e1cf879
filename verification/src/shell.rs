//! The shells a command can be handed to.

use vstd::prelude::*;
use vstd::string::StringExecFns;

verus! {

/// A shell that runs the configured command line.
#[derive(Debug, Clone, Copy, PartialEq, Eq, Structural)]
pub enum Shell {
    Bash,
    Zsh,
    Sh,
    Fish,
    Cmd,
    Powershell,
    Pwsh,
}

/// The name under which a shell is spawned and selected.
pub open spec fn shell_name(shell: Shell) -> Seq<char> {
    match shell {
        Shell::Bash => "bash"@,
        Shell::Zsh => "zsh"@,
        Shell::Sh => "sh"@,
        Shell::Fish => "fish"@,
        Shell::Cmd => "cmd"@,
        Shell::Powershell => "powershell"@,
        Shell::Pwsh => "pwsh"@,
    }
}

/// The shell selected by a name; any unknown name selects `Bash`.
pub open spec fn shell_of(name: Seq<char>) -> Shell {
    if name == "zsh"@ {
        Shell::Zsh
    } else if name == "sh"@ {
        Shell::Sh
    } else if name == "fish"@ {
        Shell::Fish
    } else if name == "cmd"@ {
        Shell::Cmd
    } else if name == "powershell"@ {
        Shell::Powershell
    } else if name == "pwsh"@ {
        Shell::Pwsh
    } else {
        Shell::Bash
    }
}

/// The flag that makes a shell run its next argument as a command line.
pub open spec fn inline_flag_of(shell: Shell) -> Seq<char> {
    match shell {
        Shell::Cmd => "/c"@,
        _ => "-c"@,
    }
}

/// The seven shell names are pairwise different texts.
pub proof fn shell_names_distinct()
    ensures
        forall|a: Shell, b: Shell| shell_name(a) == shell_name(b) ==> a == b,
{
    reveal_strlit("bash");
    reveal_strlit("zsh");
    reveal_strlit("sh");
    reveal_strlit("fish");
    reveal_strlit("cmd");
    reveal_strlit("powershell");
    reveal_strlit("pwsh");
    assert forall|a: Shell, b: Shell| shell_name(a) == shell_name(b) implies a == b by {
        if a != b {
            assert(shell_name(a).len() != shell_name(b).len() || shell_name(a)[0] != shell_name(
                b,
            )[0] || shell_name(a)[1] != shell_name(b)[1]);
        }
    }
}

/// Selecting a shell by its own name gives that shell back.
pub proof fn shell_of_name(shell: Shell)
    ensures
        shell_of(shell_name(shell)) == shell,
{
    shell_names_distinct();
    assert(shell_name(Shell::Zsh) == "zsh"@);
    assert(shell_name(Shell::Sh) == "sh"@);
    assert(shell_name(Shell::Fish) == "fish"@);
    assert(shell_name(Shell::Cmd) == "cmd"@);
    assert(shell_name(Shell::Powershell) == "powershell"@);
    assert(shell_name(Shell::Pwsh) == "pwsh"@);
    assert(shell_name(Shell::Bash) == "bash"@);
}

impl Shell {
    /// The shell's name as text.
    pub fn name(&self) -> (r: &'static str)
        ensures
            r@ == shell_name(*self),
    {
        match self {
            Shell::Bash => "bash",
            Shell::Zsh => "zsh",
            Shell::Sh => "sh",
            Shell::Fish => "fish",
            Shell::Cmd => "cmd",
            Shell::Powershell => "powershell",
            Shell::Pwsh => "pwsh",
        }
    }

    /// The shell's name as an owned string.
    pub fn to_string(&self) -> (r: String)
        ensures
            r@ == shell_name(*self),
    {
        String::from_str(self.name())
    }

    /// The flag that introduces an inline command line: `/c` for `Cmd`,
    /// `-c` for every other shell.
    pub fn inline_flag(&self) -> (r: &'static str)
        ensures
            r@ == inline_flag_of(*self),
    {
        match self {
            Shell::Cmd => "/c",
            _ => "-c",
        }
    }
}

impl Default for Shell {
    fn default() -> (r: Shell)
        ensures
            r == Shell::Bash,
    {
        Shell::Bash
    }
}

impl<'a> From<&'a str> for Shell {
    fn from(value: &'a str) -> (r: Shell) {
        let name = String::from_str(value);
        if name == String::from_str("zsh") {
            Shell::Zsh
        } else if name == String::from_str("sh") {
            Shell::Sh
        } else if name == String::from_str("fish") {
            Shell::Fish
        } else if name == String::from_str("cmd") {
            Shell::Cmd
        } else if name == String::from_str("powershell") {
            Shell::Powershell
        } else if name == String::from_str("pwsh") {
            Shell::Pwsh
        } else {
            Shell::Bash
        }
    }
}

impl<'a> vstd::std_specs::convert::FromSpecImpl<&'a str> for Shell {
    open spec fn obeys_from_spec() -> bool {
        true
    }

    open spec fn from_spec(value: &'a str) -> Shell {
        shell_of(value@)
    }
}

} // verus!
