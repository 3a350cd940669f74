//! The commands of the update prompt and what is shown around it.

use vstd::prelude::*;
use vstd::string::*;
use crate::text::str_eq;

verus! {

/// A command of the update prompt.
#[derive(Clone, Copy, Debug, PartialEq, Eq, Structural)]
pub enum PromptCommand {
    ApplyDiff,
    NextFlake,
    LaunchEditor,
    LaunchShell,
    RunNixFlakeUpdate,
    DeleteGcroots,
    Lock,
    RefreshDirenv,
    Commit,
    PrintHelp,
}

/// The token that the operator types for a command.
pub open spec fn token_of(command: PromptCommand) -> Seq<char> {
    match command {
        PromptCommand::ApplyDiff => "a"@,
        PromptCommand::NextFlake => "n"@,
        PromptCommand::LaunchEditor => "e"@,
        PromptCommand::LaunchShell => "sh"@,
        PromptCommand::RunNixFlakeUpdate => "up"@,
        PromptCommand::DeleteGcroots => "dg"@,
        PromptCommand::Lock => "lock"@,
        PromptCommand::RefreshDirenv => "direnv"@,
        PromptCommand::Commit => "commit"@,
        PromptCommand::PrintHelp => "?"@,
    }
}

/// The command that a token names.
pub open spec fn command_named(token: Seq<char>) -> Option<PromptCommand> {
    if token == "a"@ {
        Some(PromptCommand::ApplyDiff)
    } else if token == "n"@ {
        Some(PromptCommand::NextFlake)
    } else if token == "e"@ {
        Some(PromptCommand::LaunchEditor)
    } else if token == "sh"@ {
        Some(PromptCommand::LaunchShell)
    } else if token == "up"@ {
        Some(PromptCommand::RunNixFlakeUpdate)
    } else if token == "dg"@ {
        Some(PromptCommand::DeleteGcroots)
    } else if token == "lock"@ {
        Some(PromptCommand::Lock)
    } else if token == "direnv"@ {
        Some(PromptCommand::RefreshDirenv)
    } else if token == "commit"@ {
        Some(PromptCommand::Commit)
    } else if token == "?"@ {
        Some(PromptCommand::PrintHelp)
    } else {
        None
    }
}

/// The commands in the order in which the help lists them.
pub open spec fn all_commands() -> Seq<PromptCommand> {
    seq![
        PromptCommand::ApplyDiff,
        PromptCommand::NextFlake,
        PromptCommand::LaunchEditor,
        PromptCommand::LaunchShell,
        PromptCommand::RunNixFlakeUpdate,
        PromptCommand::DeleteGcroots,
        PromptCommand::Lock,
        PromptCommand::RefreshDirenv,
        PromptCommand::Commit,
        PromptCommand::PrintHelp,
    ]
}

impl PromptCommand {
    /// The commands in the order in which the help lists them.
    pub fn all() -> (r: Vec<PromptCommand>)
        ensures
            r@ == all_commands(),
    {
        let mut r: Vec<PromptCommand> = Vec::new();
        r.push(PromptCommand::ApplyDiff);
        r.push(PromptCommand::NextFlake);
        r.push(PromptCommand::LaunchEditor);
        r.push(PromptCommand::LaunchShell);
        r.push(PromptCommand::RunNixFlakeUpdate);
        r.push(PromptCommand::DeleteGcroots);
        r.push(PromptCommand::Lock);
        r.push(PromptCommand::RefreshDirenv);
        r.push(PromptCommand::Commit);
        r.push(PromptCommand::PrintHelp);
        assert(r@ =~= all_commands());
        r
    }

    /// The token that the operator types for the command.
    pub fn token(self) -> (r: &'static str)
        ensures
            r@ == token_of(self),
    {
        match self {
            PromptCommand::ApplyDiff => "a",
            PromptCommand::NextFlake => "n",
            PromptCommand::LaunchEditor => "e",
            PromptCommand::LaunchShell => "sh",
            PromptCommand::RunNixFlakeUpdate => "up",
            PromptCommand::DeleteGcroots => "dg",
            PromptCommand::Lock => "lock",
            PromptCommand::RefreshDirenv => "direnv",
            PromptCommand::Commit => "commit",
            PromptCommand::PrintHelp => "?",
        }
    }

    /// The command that a token names.
    pub fn parse(token: &str) -> (r: Option<PromptCommand>)
        ensures
            r == command_named(token@),
    {
        if str_eq(token, "a") {
            Some(PromptCommand::ApplyDiff)
        } else if str_eq(token, "n") {
            Some(PromptCommand::NextFlake)
        } else if str_eq(token, "e") {
            Some(PromptCommand::LaunchEditor)
        } else if str_eq(token, "sh") {
            Some(PromptCommand::LaunchShell)
        } else if str_eq(token, "up") {
            Some(PromptCommand::RunNixFlakeUpdate)
        } else if str_eq(token, "dg") {
            Some(PromptCommand::DeleteGcroots)
        } else if str_eq(token, "lock") {
            Some(PromptCommand::Lock)
        } else if str_eq(token, "direnv") {
            Some(PromptCommand::RefreshDirenv)
        } else if str_eq(token, "commit") {
            Some(PromptCommand::Commit)
        } else if str_eq(token, "?") {
            Some(PromptCommand::PrintHelp)
        } else {
            None
        }
    }

    /// What the help says of the command.
    pub fn description(self) -> (r: &'static str)
        ensures
            r@ == description_of(self),
    {
        match self {
            PromptCommand::ApplyDiff => "Applies the change",
            PromptCommand::NextFlake => "Proceeds to the next flake",
            PromptCommand::LaunchEditor => "Edits `flake.nix` using `$EDITOR`",
            PromptCommand::LaunchShell => "Launches `$SHELL` in the flake's directory",
            PromptCommand::RunNixFlakeUpdate => "Runs `nix flake update <input id>",
            PromptCommand::DeleteGcroots => "Deletes garbage collector roots like build results and direnv",
            PromptCommand::Lock => "Runs `nix flake lock`",
            PromptCommand::RefreshDirenv => "Refreshes direnv",
            PromptCommand::Commit => "Makes a Git commit with `flake.nix` and `flake.lock`",
            PromptCommand::PrintHelp => "Prints help",
        }
    }

    /// Whether the command changes files or runs a command that does, so
    /// that a dry run refuses it at the prompt.
    pub open spec fn writes(self) -> bool {
        self == PromptCommand::ApplyDiff || self == PromptCommand::RunNixFlakeUpdate || self
            == PromptCommand::DeleteGcroots || self == PromptCommand::Lock
    }

    /// Whether a dry run refuses the command at the prompt.
    pub fn is_write(self) -> (r: bool)
        ensures
            r == self.writes(),
    {
        match self {
            PromptCommand::ApplyDiff => true,
            PromptCommand::RunNixFlakeUpdate => true,
            PromptCommand::DeleteGcroots => true,
            PromptCommand::Lock => true,
            _ => false,
        }
    }
}

/// What the help says of a command.
pub open spec fn description_of(command: PromptCommand) -> Seq<char> {
    match command {
        PromptCommand::ApplyDiff => "Applies the change"@,
        PromptCommand::NextFlake => "Proceeds to the next flake"@,
        PromptCommand::LaunchEditor => "Edits `flake.nix` using `$EDITOR`"@,
        PromptCommand::LaunchShell => "Launches `$SHELL` in the flake's directory"@,
        PromptCommand::RunNixFlakeUpdate => "Runs `nix flake update <input id>"@,
        PromptCommand::DeleteGcroots => "Deletes garbage collector roots like build results and direnv"@,
        PromptCommand::Lock => "Runs `nix flake lock`"@,
        PromptCommand::RefreshDirenv => "Refreshes direnv"@,
        PromptCommand::Commit => "Makes a Git commit with `flake.nix` and `flake.lock`"@,
        PromptCommand::PrintHelp => "Prints help"@,
    }
}

/// The token of every command names that command.
pub proof fn lemma_token_names_command(command: PromptCommand)
    ensures
        command_named(token_of(command)) == Some(command),
{
    reveal_strlit("a");
    reveal_strlit("n");
    reveal_strlit("e");
    reveal_strlit("sh");
    reveal_strlit("up");
    reveal_strlit("dg");
    reveal_strlit("lock");
    reveal_strlit("direnv");
    reveal_strlit("commit");
    reveal_strlit("?");
    let t = token_of(command);
    match command {
        PromptCommand::ApplyDiff => {},
        PromptCommand::NextFlake => {
            assert("n"@[0] != "a"@[0]);
        },
        PromptCommand::LaunchEditor => {
            assert(t[0] != "a"@[0] && t[0] != "n"@[0]);
        },
        PromptCommand::LaunchShell => {
            assert(t.len() == 2);
        },
        PromptCommand::RunNixFlakeUpdate => {
            assert(t.len() == 2 && t[0] != "sh"@[0]);
        },
        PromptCommand::DeleteGcroots => {
            assert(t.len() == 2 && t[0] != "sh"@[0] && t[0] != "up"@[0]);
        },
        PromptCommand::Lock => {
            assert(t.len() == 4);
        },
        PromptCommand::RefreshDirenv => {
            assert(t.len() == 6);
        },
        PromptCommand::Commit => {
            assert(t.len() == 6 && t[0] != "direnv"@[0]);
        },
        PromptCommand::PrintHelp => {
            assert(t.len() == 1 && t[0] != "a"@[0] && t[0] != "n"@[0] && t[0] != "e"@[0]);
        },
    }
}

} // verus!
