use flake_gcroots::command::PromptCommand;
use flake_gcroots::flake_nix::{edit_request, EditError, EditOutcome};
use flake_gcroots::lockfile::LockError;
use flake_gcroots::matching::{MatchTarget, MatchError, Timestamp, Window};
use flake_gcroots::update::{
    execute_prompt_cmd, is_yes, parse_command, step, trim_line, update_flake, Action, Event,
    Notice, State, Step, UpdateContext, UpdateError,
};
use flake_gcroots::windower::DiffLine;

const WRITE: UpdateContext =
    UpdateContext { allow_write: true, has_direnv_gc_roots: true, in_git_repo: true };
const DRY: UpdateContext =
    UpdateContext { allow_write: false, has_direnv_gc_roots: true, in_git_repo: true };
const PLAIN: UpdateContext =
    UpdateContext { allow_write: true, has_direnv_gc_roots: false, in_git_repo: false };

fn line(text: &str) -> Event {
    Event::Line(text.to_string())
}

fn after(ctx: UpdateContext, state: State, event: Event) -> (Vec<Notice>, State) {
    let Step { notices, next } = step(ctx, state, &event);
    (notices, next)
}

#[test]
fn tokens_name_their_commands() {
    for command in PromptCommand::all() {
        assert_eq!(PromptCommand::parse(command.token()), Some(command));
    }
    assert_eq!(PromptCommand::all().len(), 10);
    assert_eq!(PromptCommand::parse("A"), None);
    assert_eq!(PromptCommand::parse(""), None);
    assert_eq!(PromptCommand::parse("lock "), None);
    assert_eq!(PromptCommand::Lock.token(), "lock");
    assert_eq!(PromptCommand::PrintHelp.token(), "?");
}

#[test]
fn every_command_is_described() {
    assert_eq!(PromptCommand::ApplyDiff.description(), "Applies the change");
    assert_eq!(PromptCommand::Lock.description(), "Runs `nix flake lock`");
    for command in PromptCommand::all() {
        assert!(!command.description().is_empty());
    }
}

#[test]
fn lines_are_trimmed_before_they_are_read() {
    assert_eq!(trim_line("  lock \n"), "lock");
    assert_eq!(parse_command(" n\n"), (PromptCommand::NextFlake, false));
    assert_eq!(parse_command("\n"), (PromptCommand::PrintHelp, false));
    assert_eq!(parse_command("what\n"), (PromptCommand::PrintHelp, true));
    assert_eq!(parse_command("?\n"), (PromptCommand::PrintHelp, false));
    assert!(is_yes(" y\n"));
    assert!(!is_yes("yes\n"));
    assert!(!is_yes("Y\n"));
    assert!(!is_yes("\n"));
}

#[test]
fn each_state_waits_for_its_action() {
    assert_eq!(State::initial(), State::Display);
    assert_eq!(State::Display.action(), Action::Display);
    assert_eq!(State::AwaitCommand.action(), Action::ReadCommand);
    assert_eq!(State::Applying.action(), Action::WriteFlakeNix);
    assert_eq!(State::Finished.action(), Action::Advance);
    assert_eq!(
        State::CommitAsked { is_empty: true, stage_is_dirty: false }.action(),
        Action::AskCommit { is_empty: true, stage_is_dirty: false }
    );
    assert!(Action::GitCommit.is_write());
    assert!(Action::WriteFlakeNix.is_write());
    assert!(!Action::Display.is_write());
    assert!(!Action::GitLog.is_write());
}

#[test]
fn a_dry_run_refuses_the_commands_that_write() {
    for token in ["a", "up", "dg", "lock"] {
        assert_eq!(
            after(DRY, State::AwaitCommand, line(token)),
            (vec![Notice::DryRun], State::AwaitCommand),
            "{token}"
        );
    }
    assert_eq!(after(DRY, State::AwaitCommand, line("e")), (vec![], State::Editing));
    assert_eq!(after(DRY, State::AwaitCommand, line("sh")), (vec![], State::InShell));
}

#[test]
fn a_dry_run_never_reaches_a_write() {
    let events = [
        line("y"),
        line("n"),
        line("a"),
        line("up"),
        line("dg"),
        line("lock"),
        line("direnv"),
        line("commit"),
        line("e"),
        line("sh"),
        line("?"),
        Event::Exited(true),
        Event::Exited(false),
        Event::Done,
        Event::Failed,
    ];
    let mut seen = vec![State::initial()];
    let mut next = 0;
    while next < seen.len() {
        let state = seen[next];
        next += 1;
        assert!(!state.action().is_write(), "{state:?}");
        for event in &events {
            let reached = step(DRY, state, event).next;
            if !seen.contains(&reached) {
                seen.push(reached);
            }
        }
    }
    assert!(seen.contains(&State::Finished));
    assert!(seen.contains(&State::CommitAsked { is_empty: true, stage_is_dirty: true }));
}

#[test]
fn the_prompt_follows_the_display() {
    assert_eq!(after(WRITE, State::Display, Event::Done), (vec![], State::AwaitCommand));
    assert_eq!(after(DRY, State::Display, Event::Done), (vec![], State::AwaitCommand));
}

#[test]
fn applying_writes_and_advises_to_lock() {
    assert_eq!(after(WRITE, State::AwaitCommand, line("a\n")), (vec![], State::Applying));
    assert_eq!(
        after(WRITE, State::Applying, Event::Done),
        (vec![Notice::AdviseLock], State::AwaitCommand)
    );
}

#[test]
fn next_ends_the_flake() {
    assert_eq!(
        after(WRITE, State::AwaitCommand, line("n")),
        (vec![Notice::GoingToNextFlake], State::Finished)
    );
    assert_eq!(after(WRITE, State::Finished, line("a")), (vec![], State::Finished));
    assert_eq!(after(WRITE, State::Finished, Event::Done), (vec![], State::Finished));
}

#[test]
fn unknown_and_blank_lines_show_the_help() {
    assert_eq!(
        after(WRITE, State::AwaitCommand, line("bogus")),
        (vec![Notice::UnknownCommand, Notice::Help], State::Display)
    );
    assert_eq!(after(WRITE, State::AwaitCommand, line("  ")), (vec![Notice::Help], State::Display));
    assert_eq!(after(WRITE, State::AwaitCommand, line("?")), (vec![Notice::Help], State::Display));
}

#[test]
fn editor_and_shell_return_to_the_prompt() {
    assert_eq!(
        after(WRITE, State::Editing, Event::Exited(true)),
        (vec![Notice::ReturnedToPrompt], State::Display)
    );
    assert_eq!(
        after(WRITE, State::Editing, Event::Exited(false)),
        (vec![Notice::EditorFailed, Notice::ReturnedToPrompt], State::Display)
    );
    assert_eq!(
        after(WRITE, State::InShell, Event::Exited(false)),
        (vec![Notice::ShellFailed, Notice::ReturnedToPrompt], State::Display)
    );
}

#[test]
fn a_failed_update_stays_at_the_prompt() {
    assert_eq!(after(WRITE, State::AwaitCommand, line("up")), (vec![], State::Updating));
    assert_eq!(
        after(WRITE, State::Updating, Event::Exited(false)),
        (vec![Notice::UpdateFailed], State::Display)
    );
    assert_eq!(
        after(WRITE, State::Locking, Event::Exited(false)),
        (vec![Notice::LockFailed], State::Display)
    );
}

#[test]
fn a_successful_update_offers_direnv_and_a_commit() {
    assert_eq!(
        after(WRITE, State::Updating, Event::Exited(true)),
        (vec![], State::DirenvAsked { then_commit: true })
    );
    assert_eq!(
        after(WRITE, State::DirenvAsked { then_commit: true }, line("y")),
        (vec![], State::DirenvRunning { then_commit: true })
    );
    assert_eq!(
        after(WRITE, State::DirenvRunning { then_commit: true }, Event::Exited(false)),
        (vec![Notice::DirenvFailed], State::CommitProbingLog)
    );
    assert_eq!(
        after(WRITE, State::DirenvAsked { then_commit: true }, line("")),
        (vec![], State::CommitProbingLog)
    );
    assert_eq!(after(PLAIN, State::Locking, Event::Exited(true)), (vec![], State::Display));
    let git_only = UpdateContext { allow_write: true, has_direnv_gc_roots: false, in_git_repo: true };
    assert_eq!(after(git_only, State::Locking, Event::Exited(true)), (vec![], State::CommitProbingLog));
    let direnv_only = UpdateContext { allow_write: true, has_direnv_gc_roots: true, in_git_repo: false };
    assert_eq!(
        after(direnv_only, State::DirenvRunning { then_commit: true }, Event::Exited(true)),
        (vec![], State::Display)
    );
}

#[test]
fn direnv_at_the_prompt_offers_no_commit() {
    assert_eq!(
        after(WRITE, State::AwaitCommand, line("direnv")),
        (vec![], State::DirenvAsked { then_commit: false })
    );
    assert_eq!(
        after(WRITE, State::DirenvRunning { then_commit: false }, Event::Exited(true)),
        (vec![], State::Display)
    );
    assert_eq!(
        after(DRY, State::DirenvAsked { then_commit: false }, line("y")),
        (vec![Notice::DryRun], State::Display)
    );
}

#[test]
fn a_commit_probes_asks_stages_and_commits() {
    assert_eq!(after(WRITE, State::AwaitCommand, line("commit")), (vec![], State::CommitProbingLog));
    assert_eq!(
        after(WRITE, State::CommitProbingLog, Event::Exited(false)),
        (vec![], State::CommitProbingStage { is_empty: true })
    );
    assert_eq!(
        after(WRITE, State::CommitProbingStage { is_empty: true }, Event::Exited(true)),
        (vec![], State::CommitAsked { is_empty: true, stage_is_dirty: false })
    );
    let asked = State::CommitAsked { is_empty: false, stage_is_dirty: true };
    assert_eq!(after(WRITE, asked, line("y")), (vec![], State::CommitStaging));
    assert_eq!(after(WRITE, asked, line("N")), (vec![], State::Display));
    assert_eq!(after(DRY, asked, line("y")), (vec![Notice::DryRun], State::Display));
    assert_eq!(after(WRITE, State::CommitStaging, Event::Exited(true)), (vec![], State::Committing));
    assert_eq!(
        after(WRITE, State::CommitStaging, Event::Exited(false)),
        (vec![Notice::StageFailed], State::Display)
    );
    assert_eq!(
        after(WRITE, State::Committing, Event::Exited(false)),
        (vec![Notice::CommitFailed], State::Display)
    );
    assert_eq!(after(WRITE, State::Committing, Event::Exited(true)), (vec![], State::Display));
}

#[test]
fn deleting_roots_returns_to_the_prompt() {
    assert_eq!(
        after(WRITE, State::AwaitCommand, line("dg")),
        (vec![Notice::DeletingGcroots], State::Deleting)
    );
    assert_eq!(after(WRITE, State::Deleting, Event::Done), (vec![], State::Display));
}

#[test]
fn an_outcome_of_another_kind_changes_nothing() {
    assert_eq!(after(WRITE, State::Updating, line("y")), (vec![], State::Updating));
    assert_eq!(after(WRITE, State::AwaitCommand, Event::Done), (vec![], State::AwaitCommand));
    assert_eq!(after(WRITE, State::Display, line("n")), (vec![], State::Display));
    assert_eq!(after(WRITE, State::Applying, Event::Exited(true)), (vec![], State::Applying));
}

#[test]
fn commands_at_the_prompt() {
    let Step { notices, next } = execute_prompt_cmd(DRY, PromptCommand::Commit);
    assert_eq!((notices, next), (vec![], State::CommitProbingLog));
    let Step { notices, next } = execute_prompt_cmd(DRY, PromptCommand::Lock);
    assert_eq!((notices, next), (vec![Notice::DryRun], State::AwaitCommand));
    let Step { notices, next } = execute_prompt_cmd(WRITE, PromptCommand::Lock);
    assert_eq!((notices, next), (vec![], State::Locking));
}

const LOCK: &str = r#"{"nodes": {
    "nixpkgs": {
      "locked": {"lastModified": 1600000000, "owner": "NixOS", "repo": "nixpkgs", "rev": "aaa",
                 "type": "github"},
      "original": {"owner": "NixOS", "ref": "nixos-unstable", "repo": "nixpkgs", "type": "github"}
    },
    "root": {"inputs": {"nixpkgs": "nixpkgs"}}
  }, "root": "root", "version": 7}"#;

const FLAKE_NIX: &str = "{\n  inputs.nixpkgs.url = \"github:NixOS/nixpkgs/aaa\";\n  outputs = _: { };\n}\n";

const NOW: Timestamp = Timestamp { secs: 1_700_000_000, nanos: 0 };
const MONTH: Window = Window { secs: 2_630_016, nanos: 0 };

/// Hands the request for the URL of the target to the editor of Nix files,
/// as the caller of the library does.
fn edited(target: &MatchTarget, contents: &str, flake_id: &str) -> EditOutcome {
    let request = edit_request(target.flake_ref_url(), flake_id);
    match nix_editor::write::write(contents, &request.path, &request.value) {
        Ok(text) => EditOutcome::Edited(text),
        Err(error) => EditOutcome::Refused(error.to_string()),
    }
}

fn shown(
    flake_id: &str,
    target: &MatchTarget,
    lockfile: &[u8],
    contents: &str,
    in_git_repo: bool,
    diff_context: usize,
) -> Result<flake_gcroots::update::Display, UpdateError> {
    let outcome = edited(target, contents, flake_id);
    update_flake(flake_id, target, lockfile, contents, outcome, in_git_repo, NOW, MONTH, diff_context)
}

fn target(rev: &str, url: &str) -> MatchTarget {
    let text = LOCK.replace("aaa", rev).replace("1600000000", "1699999999");
    MatchTarget::FlakeInput {
        input: flake_gcroots::decode::load_lockfile_input(text.as_bytes(), "nixpkgs").unwrap(),
        flake_ref_url: url.to_string(),
    }
}

#[test]
fn an_outdated_flake_is_shown_with_the_diff_to_the_target() {
    let target = target("bbb", "github:NixOS/nixpkgs/bbb");
    let shown =
        self::shown("nixpkgs", &target, LOCK.as_bytes(), FLAKE_NIX, true, 0).unwrap();
    assert!(!shown.info.verdict.rev_ok);
    assert!(shown.info.verdict.ref_ok);
    assert!(!shown.info.verdict.ref_fresh_ok);
    assert!(!shown.info.matches_target);
    assert_eq!(shown.proposed, FLAKE_NIX.replace("aaa", "bbb"));
    assert_eq!(
        shown.diff,
        vec![
            DiffLine::Removed("  inputs.nixpkgs.url = \"github:NixOS/nixpkgs/aaa\";".to_string()),
            DiffLine::Added("  inputs.nixpkgs.url = \"github:NixOS/nixpkgs/bbb\";".to_string()),
        ]
    );
    assert!(shown.advice.changes_exist);
    assert!(!shown.advice.lock_outdated);
    assert!(!shown.advice.gcroots_may_be_stale);
    assert!(!shown.advice.commented_input);
    assert_eq!(shown.options, "a,n,e,sh,up,dg,lock,direnv,commit,?");
}

#[test]
fn an_applied_change_leaves_the_lock_to_follow() {
    let target = target("bbb", "github:NixOS/nixpkgs/aaa");
    let shown =
        self::shown("nixpkgs", &target, LOCK.as_bytes(), FLAKE_NIX, false, 3).unwrap();
    assert_eq!(shown.diff, vec![]);
    assert!(!shown.advice.changes_exist);
    assert!(shown.advice.lock_outdated);
    assert_eq!(shown.options, "n,e,sh,up,dg,lock,direnv,?");
}

#[test]
fn a_flake_that_matches_may_have_stale_roots() {
    let target = target("aaa", "github:NixOS/nixpkgs/aaa");
    let shown =
        self::shown("nixpkgs", &target, LOCK.as_bytes(), FLAKE_NIX, false, 3).unwrap();
    assert!(shown.info.matches_target);
    assert!(shown.advice.gcroots_may_be_stale);
    assert!(!shown.advice.lock_outdated);
}

#[test]
fn a_commented_input_is_pointed_out() {
    let target = target("bbb", "github:NixOS/nixpkgs/bbb");
    let text = format!("# nixpkgs.url = \"old\";\n{FLAKE_NIX}");
    let shown = self::shown("nixpkgs", &target, LOCK.as_bytes(), &text, false, 3).unwrap();
    assert!(shown.advice.commented_input);
}

#[test]
fn a_refused_pattern_is_an_error_of_its_own() {
    let target = target("bbb", "github:NixOS/nixpkgs/bbb");
    let name = "a".repeat(4_000_000);
    let lock = LOCK.replace("\"nixpkgs\": \"nixpkgs\"", &format!("\"{name}\": \"nixpkgs\""));
    let text = format!("{{\n  inputs.{name}.url = \"x\";\n  outputs = _: {{ }};\n}}\n");
    assert!(matches!(
        shown(&name, &target, lock.as_bytes(), &text, false, 3),
        Err(UpdateError::Pattern(_))
    ));
}

#[test]
fn an_editor_that_refuses_or_gives_up_is_an_error() {
    let target = target("bbb", "github:NixOS/nixpkgs/bbb");
    assert_eq!(
        update_flake(
            "nixpkgs",
            &target,
            LOCK.as_bytes(),
            FLAKE_NIX,
            EditOutcome::Refused("m".to_string()),
            false,
            NOW,
            MONTH,
            3
        ),
        Err(UpdateError::Edit(EditError::InvalidFlakeNix("m".to_string())))
    );
    assert_eq!(
        update_flake(
            "nixpkgs",
            &target,
            LOCK.as_bytes(),
            "{",
            EditOutcome::Crashed,
            false,
            NOW,
            MONTH,
            3
        ),
        Err(UpdateError::Edit(EditError::EditorCrashed))
    );
}

#[test]
fn a_text_that_is_no_nix_is_refused_by_the_editor() {
    let target = target("bbb", "github:NixOS/nixpkgs/bbb");
    assert!(matches!(
        shown("nixpkgs", &target, LOCK.as_bytes(), "", false, 3),
        Err(UpdateError::Edit(EditError::InvalidFlakeNix(_)))
    ));
}

#[test]
fn a_failed_action_gives_the_flake_up() {
    for state in [
        State::Display,
        State::AwaitCommand,
        State::Applying,
        State::Editing,
        State::InShell,
        State::Updating,
        State::Locking,
        State::Deleting,
        State::DirenvAsked { then_commit: true },
        State::DirenvRunning { then_commit: false },
        State::CommitProbingLog,
        State::CommitProbingStage { is_empty: false },
        State::CommitAsked { is_empty: false, stage_is_dirty: false },
        State::CommitStaging,
        State::Committing,
    ] {
        assert_eq!(after(WRITE, state, Event::Failed), (vec![], State::Aborted), "{state:?}");
    }
    assert_eq!(State::Aborted.action(), Action::GiveUp);
    assert!(!Action::GiveUp.is_write());
}

#[test]
fn what_is_over_stays_over() {
    for event in [line("a"), Event::Exited(true), Event::Done, Event::Failed] {
        assert_eq!(after(WRITE, State::Aborted, event), (vec![], State::Aborted));
    }
    assert_eq!(after(WRITE, State::Finished, Event::Failed), (vec![], State::Finished));
}

#[test]
fn what_cannot_be_read_cannot_be_shown() {
    let target = target("bbb", "github:NixOS/nixpkgs/bbb");
    assert!(matches!(
        shown("nixpkgs", &target, b"{}", FLAKE_NIX, false, 3),
        Err(UpdateError::Lock(LockError::Format(_)))
    ));
    assert!(matches!(
        shown("other", &target, LOCK.as_bytes(), FLAKE_NIX, false, 3),
        Err(UpdateError::Lock(LockError::MissingData))
    ));
    let late = LOCK.replace("1600000000", "18446744073709551615");
    assert!(matches!(
        shown("nixpkgs", &target, late.as_bytes(), FLAKE_NIX, false, 3),
        Err(UpdateError::Match(MatchError::InvalidLastModified))
    ));
}
