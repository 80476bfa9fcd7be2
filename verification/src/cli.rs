//! Plain data for the command-line surface: the subcommands and the shells
//! for which completions can be generated.  Argument parsing itself lives
//! outside the library.

use vstd::prelude::*;

verus! {

/// A shell for which completion definitions can be generated.
#[derive(Clone, Copy, Debug, PartialEq, Eq)]
pub enum CompletionShell {
    Bash,
    Elvish,
    Fish,
    PowerShell,
    Zsh,
    Nushell,
}

/// A subcommand other than the default launch action.
#[derive(Clone, Copy, Debug, PartialEq, Eq)]
pub enum Commands {
    /// Generates completions for a shell and writes them to stdout.
    Completions { shell: CompletionShell },
}

} // verus!
