//! The interactive update of one flake, as a machine: each state waits for
//! the outcome of one action, and each outcome leads to the next state.

use vstd::prelude::*;
use vstd::string::*;
use crate::text::str_eq;
use crate::command::{command_named, PromptCommand};
use crate::decode::{failure_of, load_lockfile_input, loaded_input, LoadFailure};
use crate::display::{
    Advice,
    advice_for,
    advise,
    fields_view,
    FlakeInfo,
    print_flake_info,
    prompt_options,
    prompt_text,
    shown_fields,
};
use crate::flake_nix::{
    edit_result,
    EditError,
    EditErrorView,
    EditOutcome,
    has_commented_input,
    input_comment_pattern,
    pattern_matches,
    replace_flake_input_url,
};
use crate::lockfile::{LockError, LockfileNodeView};
use crate::matching::{MatchError, MatchTarget, node_is_comparable, Timestamp, verdict_of, Window};
use crate::windower::{
    DiffLine,
    DiffLineView,
    line_diff,
    line_views,
    print_diff,
    reduce_context,
    text_lines,
    view_changed,
};

verus! {

/// A line without the white space at its ends, as `str::trim` gives it.
pub uninterp spec fn trimmed(line: Seq<char>) -> Seq<char>;

/// Calls `str::trim`. The contract claims that the outcome depends on the
/// characters alone.
#[verifier::external_body]
fn trim_text(line: &str) -> (r: String)
    ensures
        r@ == trimmed(line@),
{
    line.trim().to_owned()
}

/// The line that the operator typed, without the white space at its ends.
pub fn trim_line(line: &str) -> (r: String)
    ensures
        r@ == trimmed(line@),
{
    trim_text(line)
}

/// What is fixed while one flake is updated.
#[derive(Clone, Copy, Debug, PartialEq, Eq, Structural)]
pub struct UpdateContext {
    /// Whether files may be changed. Without it the run is a dry run.
    pub allow_write: bool,
    /// Whether the flake has roots of direnv.
    pub has_direnv_gc_roots: bool,
    /// Whether the flake lies in a Git repository.
    pub in_git_repo: bool,
}

/// What the caller does for the machine.
#[derive(Clone, Copy, Debug, PartialEq, Eq, Structural)]
pub enum Action {
    /// Read the lock file and the `flake.nix` again, and show the flake,
    /// the diff and the advice.
    Display,
    /// Show the prompt and read a command.
    ReadCommand,
    /// Write the proposed text to `flake.nix`.
    WriteFlakeNix,
    LaunchEditor,
    LaunchShell,
    RunNixFlakeUpdate,
    RunNixFlakeLock,
    /// Remove every garbage collector root of the flake.
    DeleteGcroots,
    /// Ask whether direnv is to be refreshed, and read the answer.
    AskRefreshDirenv,
    RunDirenvReload,
    /// Run `git log -0`: it fails where the repository has no commit.
    GitLog,
    /// Run `git diff --quiet --cached --exit-code`: it fails where
    /// something is staged.
    GitDiffCached,
    /// Ask whether the two files are to be committed, and read the answer.
    AskCommit { is_empty: bool, stage_is_dirty: bool },
    GitAdd,
    GitCommit,
    /// Go on with the next flake.
    Advance,
    /// Give the flake up with the failure that was met, and go on with the
    /// next flake.
    GiveUp,
}

impl Action {
    /// Whether the action changes files or runs a command that does.
    pub open spec fn writes(self) -> bool {
        self == Action::WriteFlakeNix || self == Action::RunNixFlakeUpdate || self
            == Action::RunNixFlakeLock || self == Action::DeleteGcroots || self
            == Action::RunDirenvReload || self == Action::GitAdd || self == Action::GitCommit
    }

    /// Whether the action changes files or runs a command that does.
    pub fn is_write(self) -> (r: bool)
        ensures
            r == self.writes(),
    {
        match self {
            Action::WriteFlakeNix => true,
            Action::RunNixFlakeUpdate => true,
            Action::RunNixFlakeLock => true,
            Action::DeleteGcroots => true,
            Action::RunDirenvReload => true,
            Action::GitAdd => true,
            Action::GitCommit => true,
            _ => false,
        }
    }
}

/// A state of the machine. Each state but the last waits for the outcome of
/// one action.
#[derive(Clone, Copy, Debug, PartialEq, Eq, Structural)]
pub enum State {
    /// The flake is to be shown, for the first time or once more.
    Display,
    /// The prompt waits for a command.
    AwaitCommand,
    Applying,
    Editing,
    InShell,
    Updating,
    Locking,
    Deleting,
    DirenvAsked { then_commit: bool },
    DirenvRunning { then_commit: bool },
    CommitProbingLog,
    CommitProbingStage { is_empty: bool },
    CommitAsked { is_empty: bool, stage_is_dirty: bool },
    CommitStaging,
    Committing,
    /// The operator has gone on to the next flake.
    Finished,
    /// An action failed: the update of the flake is given up.
    Aborted,
}

impl State {
    /// Whether the update of the flake is over.
    pub open spec fn is_over(self) -> bool {
        self == State::Finished || self == State::Aborted
    }

    /// The action whose outcome the state waits for.
    pub open spec fn pending(self) -> Action {
        match self {
            State::Display => Action::Display,
            State::AwaitCommand => Action::ReadCommand,
            State::Applying => Action::WriteFlakeNix,
            State::Editing => Action::LaunchEditor,
            State::InShell => Action::LaunchShell,
            State::Updating => Action::RunNixFlakeUpdate,
            State::Locking => Action::RunNixFlakeLock,
            State::Deleting => Action::DeleteGcroots,
            State::DirenvAsked { .. } => Action::AskRefreshDirenv,
            State::DirenvRunning { .. } => Action::RunDirenvReload,
            State::CommitProbingLog => Action::GitLog,
            State::CommitProbingStage { .. } => Action::GitDiffCached,
            State::CommitAsked { is_empty, stage_is_dirty } => Action::AskCommit {
                is_empty,
                stage_is_dirty,
            },
            State::CommitStaging => Action::GitAdd,
            State::Committing => Action::GitCommit,
            State::Finished => Action::Advance,
            State::Aborted => Action::GiveUp,
        }
    }

    /// The state in which the update of a flake begins.
    pub fn initial() -> (r: State)
        ensures
            r == State::Display,
    {
        State::Display
    }

    /// The action whose outcome the state waits for.
    pub fn action(self) -> (r: Action)
        ensures
            r == self.pending(),
    {
        match self {
            State::Display => Action::Display,
            State::AwaitCommand => Action::ReadCommand,
            State::Applying => Action::WriteFlakeNix,
            State::Editing => Action::LaunchEditor,
            State::InShell => Action::LaunchShell,
            State::Updating => Action::RunNixFlakeUpdate,
            State::Locking => Action::RunNixFlakeLock,
            State::Deleting => Action::DeleteGcroots,
            State::DirenvAsked { .. } => Action::AskRefreshDirenv,
            State::DirenvRunning { .. } => Action::RunDirenvReload,
            State::CommitProbingLog => Action::GitLog,
            State::CommitProbingStage { .. } => Action::GitDiffCached,
            State::CommitAsked { is_empty, stage_is_dirty } => Action::AskCommit {
                is_empty,
                stage_is_dirty,
            },
            State::CommitStaging => Action::GitAdd,
            State::Committing => Action::GitCommit,
            State::Finished => Action::Advance,
            State::Aborted => Action::GiveUp,
        }
    }
}

/// The outcome of an action.
#[derive(Debug, PartialEq, Eq)]
pub enum Event {
    /// The line that the operator typed.
    Line(String),
    /// Whether the command that was run succeeded.
    Exited(bool),
    /// The action is done and has nothing to tell.
    Done,
    /// The action could not be performed: a file could not be read,
    /// written or removed, a command could not be started, or what was read
    /// could not be shown.
    Failed,
}

/// The model of an [`Event`].
pub enum EventView {
    Line(Seq<char>),
    Exited(bool),
    Done,
    Failed,
}

impl View for Event {
    type V = EventView;

    open spec fn view(&self) -> EventView {
        match *self {
            Event::Line(s) => EventView::Line(s@),
            Event::Exited(ok) => EventView::Exited(ok),
            Event::Done => EventView::Done,
            Event::Failed => EventView::Failed,
        }
    }
}

/// Something to tell the operator.
#[derive(Clone, Copy, Debug, PartialEq, Eq, Structural)]
pub enum Notice {
    /// The line names no command.
    UnknownCommand,
    /// The run is a dry run: nothing is changed.
    DryRun,
    /// The change was applied: the lock file should follow.
    AdviseLock,
    GoingToNextFlake,
    EditorFailed,
    ShellFailed,
    /// The editor or the shell is left: lock after manual edits.
    ReturnedToPrompt,
    UpdateFailed,
    LockFailed,
    DeletingGcroots,
    DirenvFailed,
    StageFailed,
    CommitFailed,
    /// The list of the commands.
    Help,
}

/// What one step of the machine gives.
#[derive(Debug, PartialEq, Eq)]
pub struct Step {
    pub notices: Vec<Notice>,
    pub next: State,
}

/// The model of a [`Step`].
pub struct StepView {
    pub notices: Seq<Notice>,
    pub next: State,
}

impl View for Step {
    type V = StepView;

    open spec fn view(&self) -> StepView {
        StepView { notices: self.notices@, next: self.next }
    }
}

/// The command that a line gives: the one that it names, and the help for
/// any other line.
pub open spec fn command_for(line: Seq<char>) -> PromptCommand {
    match command_named(trimmed(line)) {
        Some(command) => command,
        None => PromptCommand::PrintHelp,
    }
}

/// Whether a line names no command and is not blank.
pub open spec fn is_unknown(line: Seq<char>) -> bool {
    command_named(trimmed(line)) is None && trimmed(line).len() > 0
}

/// Whether a line says yes.
pub open spec fn says_yes(line: Seq<char>) -> bool {
    trimmed(line) == "y"@
}

/// The state after the question about direnv is settled.
pub open spec fn after_direnv(ctx: UpdateContext, then_commit: bool) -> State {
    if then_commit && ctx.in_git_repo {
        State::CommitProbingLog
    } else {
        State::Display
    }
}

/// The state after the update or the locking succeeded: direnv is offered
/// where the flake has roots of it, then a commit where the flake lies in a
/// Git repository.
pub open spec fn after_tool_success(ctx: UpdateContext) -> State {
    if ctx.has_direnv_gc_roots {
        State::DirenvAsked { then_commit: true }
    } else {
        after_direnv(ctx, true)
    }
}

/// What a command does at the prompt. A dry run refuses the commands that
/// write, with a notice, and the prompt waits once more.
pub open spec fn command_step(ctx: UpdateContext, command: PromptCommand) -> StepView {
    if command.writes() && !ctx.allow_write {
        StepView { notices: seq![Notice::DryRun], next: State::AwaitCommand }
    } else {
        match command {
            PromptCommand::ApplyDiff => StepView { notices: seq![], next: State::Applying },
            PromptCommand::NextFlake => StepView {
                notices: seq![Notice::GoingToNextFlake],
                next: State::Finished,
            },
            PromptCommand::LaunchEditor => StepView { notices: seq![], next: State::Editing },
            PromptCommand::LaunchShell => StepView { notices: seq![], next: State::InShell },
            PromptCommand::RunNixFlakeUpdate => StepView { notices: seq![], next: State::Updating },
            PromptCommand::DeleteGcroots => StepView {
                notices: seq![Notice::DeletingGcroots],
                next: State::Deleting,
            },
            PromptCommand::Lock => StepView { notices: seq![], next: State::Locking },
            PromptCommand::RefreshDirenv => StepView {
                notices: seq![],
                next: State::DirenvAsked { then_commit: false },
            },
            PromptCommand::Commit => StepView { notices: seq![], next: State::CommitProbingLog },
            PromptCommand::PrintHelp => StepView {
                notices: seq![Notice::Help],
                next: State::Display,
            },
        }
    }
}

/// One step of the machine: what the outcome `event` of the action that
/// `state` waits for leads to. An action that fails is fatal for the flake:
/// the update is given up, and nothing is tried again. After a refusal in a
/// dry run, and after the change is applied, the prompt waits once more;
/// after anything else that does not end the update, the flake is shown
/// again. An outcome of a kind that the state does not wait for changes
/// nothing, so that the action is repeated.
pub open spec fn step_of(ctx: UpdateContext, state: State, event: EventView) -> StepView {
    match (state, event) {
        (State::Finished, _) => StepView { notices: seq![], next: State::Finished },
        (State::Aborted, _) => StepView { notices: seq![], next: State::Aborted },
        (_, EventView::Failed) => StepView { notices: seq![], next: State::Aborted },
        (State::Display, EventView::Done) => StepView { notices: seq![], next: State::AwaitCommand },
        (State::AwaitCommand, EventView::Line(line)) => {
            let step = command_step(ctx, command_for(line));
            if is_unknown(line) {
                StepView { notices: seq![Notice::UnknownCommand] + step.notices, next: step.next }
            } else {
                step
            }
        },
        (State::Applying, EventView::Done) => StepView {
            notices: seq![Notice::AdviseLock],
            next: State::AwaitCommand,
        },
        (State::Editing, EventView::Exited(ok)) => StepView {
            notices: if ok {
                seq![Notice::ReturnedToPrompt]
            } else {
                seq![Notice::EditorFailed, Notice::ReturnedToPrompt]
            },
            next: State::Display,
        },
        (State::InShell, EventView::Exited(ok)) => StepView {
            notices: if ok {
                seq![Notice::ReturnedToPrompt]
            } else {
                seq![Notice::ShellFailed, Notice::ReturnedToPrompt]
            },
            next: State::Display,
        },
        (State::Updating, EventView::Exited(ok)) => if ok {
            StepView { notices: seq![], next: after_tool_success(ctx) }
        } else {
            StepView { notices: seq![Notice::UpdateFailed], next: State::Display }
        },
        (State::Locking, EventView::Exited(ok)) => if ok {
            StepView { notices: seq![], next: after_tool_success(ctx) }
        } else {
            StepView { notices: seq![Notice::LockFailed], next: State::Display }
        },
        (State::Deleting, EventView::Done) => StepView { notices: seq![], next: State::Display },
        (State::DirenvAsked { then_commit }, EventView::Line(line)) => if says_yes(line) {
            if ctx.allow_write {
                StepView { notices: seq![], next: State::DirenvRunning { then_commit } }
            } else {
                StepView { notices: seq![Notice::DryRun], next: after_direnv(ctx, then_commit) }
            }
        } else {
            StepView { notices: seq![], next: after_direnv(ctx, then_commit) }
        },
        (State::DirenvRunning { then_commit }, EventView::Exited(ok)) => StepView {
            notices: if ok {
                seq![]
            } else {
                seq![Notice::DirenvFailed]
            },
            next: after_direnv(ctx, then_commit),
        },
        (State::CommitProbingLog, EventView::Exited(ok)) => StepView {
            notices: seq![],
            next: State::CommitProbingStage { is_empty: !ok },
        },
        (State::CommitProbingStage { is_empty }, EventView::Exited(ok)) => StepView {
            notices: seq![],
            next: State::CommitAsked { is_empty, stage_is_dirty: !ok },
        },
        (State::CommitAsked { .. }, EventView::Line(line)) => if says_yes(line) {
            if ctx.allow_write {
                StepView { notices: seq![], next: State::CommitStaging }
            } else {
                StepView { notices: seq![Notice::DryRun], next: State::Display }
            }
        } else {
            StepView { notices: seq![], next: State::Display }
        },
        (State::CommitStaging, EventView::Exited(ok)) => if ok {
            StepView { notices: seq![], next: State::Committing }
        } else {
            StepView { notices: seq![Notice::StageFailed], next: State::Display }
        },
        (State::Committing, EventView::Exited(ok)) => StepView {
            notices: if ok {
                seq![]
            } else {
                seq![Notice::CommitFailed]
            },
            next: State::Display,
        },
        _ => StepView { notices: seq![], next: state },
    }
}

/// The command that a line gives, and whether the line names none and is
/// not blank.
pub fn parse_command(line: &str) -> (r: (PromptCommand, bool))
    ensures
        r.0 == command_for(line@),
        r.1 == is_unknown(line@),
{
    let token = trim_text(line);
    match PromptCommand::parse(token.as_str()) {
        Some(command) => (command, false),
        None => (PromptCommand::PrintHelp, token.as_str().unicode_len() > 0),
    }
}

/// Whether a line says yes.
pub fn is_yes(line: &str) -> (r: bool)
    ensures
        r == says_yes(line@),
{
    let token = trim_text(line);
    str_eq(token.as_str(), "y")
}

fn one_notice(notice: Notice) -> (r: Vec<Notice>)
    ensures
        r@ == seq![notice],
{
    let mut r: Vec<Notice> = Vec::new();
    r.push(notice);
    r
}

fn direnv_settled(ctx: UpdateContext, then_commit: bool) -> (r: State)
    ensures
        r == after_direnv(ctx, then_commit),
{
    if then_commit && ctx.in_git_repo {
        State::CommitProbingLog
    } else {
        State::Display
    }
}

fn tool_succeeded(ctx: UpdateContext) -> (r: State)
    ensures
        r == after_tool_success(ctx),
{
    if ctx.has_direnv_gc_roots {
        State::DirenvAsked { then_commit: true }
    } else {
        direnv_settled(ctx, true)
    }
}

/// What a command does at the prompt.
pub fn execute_prompt_cmd(ctx: UpdateContext, cmd: PromptCommand) -> (r: Step)
    ensures
        r@ == command_step(ctx, cmd),
{
    if cmd.is_write() && !ctx.allow_write {
        return Step { notices: one_notice(Notice::DryRun), next: State::AwaitCommand };
    }
    match cmd {
        PromptCommand::ApplyDiff => Step { notices: Vec::new(), next: State::Applying },
        PromptCommand::NextFlake => Step {
            notices: one_notice(Notice::GoingToNextFlake),
            next: State::Finished,
        },
        PromptCommand::LaunchEditor => Step { notices: Vec::new(), next: State::Editing },
        PromptCommand::LaunchShell => Step { notices: Vec::new(), next: State::InShell },
        PromptCommand::RunNixFlakeUpdate => Step { notices: Vec::new(), next: State::Updating },
        PromptCommand::DeleteGcroots => Step {
            notices: one_notice(Notice::DeletingGcroots),
            next: State::Deleting,
        },
        PromptCommand::Lock => Step { notices: Vec::new(), next: State::Locking },
        PromptCommand::RefreshDirenv => Step {
            notices: Vec::new(),
            next: State::DirenvAsked { then_commit: false },
        },
        PromptCommand::Commit => Step { notices: Vec::new(), next: State::CommitProbingLog },
        PromptCommand::PrintHelp => Step { notices: one_notice(Notice::Help), next: State::Display },
    }
}

fn failure_notice(ok: bool, notice: Notice) -> (r: Vec<Notice>)
    ensures
        r@ == if ok {
            Seq::<Notice>::empty()
        } else {
            seq![notice]
        },
{
    if ok {
        Vec::new()
    } else {
        one_notice(notice)
    }
}

fn returned_notices(ok: bool, notice: Notice) -> (r: Vec<Notice>)
    ensures
        r@ == if ok {
            seq![Notice::ReturnedToPrompt]
        } else {
            seq![notice, Notice::ReturnedToPrompt]
        },
{
    let mut r = failure_notice(ok, notice);
    r.push(Notice::ReturnedToPrompt);
    r
}

/// One step of the machine.
pub fn step(ctx: UpdateContext, state: State, event: &Event) -> (r: Step)
    ensures
        r@ == step_of(ctx, state, event@),
{
    match (state, event) {
        (State::Finished, _) => Step { notices: Vec::new(), next: State::Finished },
        (State::Aborted, _) => Step { notices: Vec::new(), next: State::Aborted },
        (_, Event::Failed) => Step { notices: Vec::new(), next: State::Aborted },
        (State::Display, Event::Done) => Step { notices: Vec::new(), next: State::AwaitCommand },
        (State::AwaitCommand, Event::Line(line)) => {
            let (command, unknown) = parse_command(line.as_str());
            let inner = execute_prompt_cmd(ctx, command);
            if unknown {
                let mut notices = one_notice(Notice::UnknownCommand);
                let mut i: usize = 0;
                while i < inner.notices.len()
                    invariant
                        i <= inner.notices.len(),
                        notices@ == seq![Notice::UnknownCommand] + inner.notices@.take(i as int),
                    decreases inner.notices.len() - i,
                {
                    notices.push(inner.notices[i]);
                    assert(inner.notices@.take(i + 1) =~= inner.notices@.take(i as int).push(
                        inner.notices@[i as int],
                    ));
                    i += 1;
                }
                assert(inner.notices@.take(i as int) =~= inner.notices@);
                Step { notices, next: inner.next }
            } else {
                inner
            }
        },
        (State::Applying, Event::Done) => Step {
            notices: one_notice(Notice::AdviseLock),
            next: State::AwaitCommand,
        },
        (State::Editing, Event::Exited(ok)) => Step {
            notices: returned_notices(*ok, Notice::EditorFailed),
            next: State::Display,
        },
        (State::InShell, Event::Exited(ok)) => Step {
            notices: returned_notices(*ok, Notice::ShellFailed),
            next: State::Display,
        },
        (State::Updating, Event::Exited(ok)) => if *ok {
            Step { notices: Vec::new(), next: tool_succeeded(ctx) }
        } else {
            Step { notices: one_notice(Notice::UpdateFailed), next: State::Display }
        },
        (State::Locking, Event::Exited(ok)) => if *ok {
            Step { notices: Vec::new(), next: tool_succeeded(ctx) }
        } else {
            Step { notices: one_notice(Notice::LockFailed), next: State::Display }
        },
        (State::Deleting, Event::Done) => Step { notices: Vec::new(), next: State::Display },
        (State::DirenvAsked { then_commit }, Event::Line(line)) => if is_yes(line.as_str()) {
            if ctx.allow_write {
                Step { notices: Vec::new(), next: State::DirenvRunning { then_commit } }
            } else {
                Step {
                    notices: one_notice(Notice::DryRun),
                    next: direnv_settled(ctx, then_commit),
                }
            }
        } else {
            Step { notices: Vec::new(), next: direnv_settled(ctx, then_commit) }
        },
        (State::DirenvRunning { then_commit }, Event::Exited(ok)) => Step {
            notices: failure_notice(*ok, Notice::DirenvFailed),
            next: direnv_settled(ctx, then_commit),
        },
        (State::CommitProbingLog, Event::Exited(ok)) => Step {
            notices: Vec::new(),
            next: State::CommitProbingStage { is_empty: !*ok },
        },
        (State::CommitProbingStage { is_empty }, Event::Exited(ok)) => Step {
            notices: Vec::new(),
            next: State::CommitAsked { is_empty, stage_is_dirty: !*ok },
        },
        (State::CommitAsked { .. }, Event::Line(line)) => if is_yes(line.as_str()) {
            if ctx.allow_write {
                Step { notices: Vec::new(), next: State::CommitStaging }
            } else {
                Step { notices: one_notice(Notice::DryRun), next: State::Display }
            }
        } else {
            Step { notices: Vec::new(), next: State::Display }
        },
        (State::CommitStaging, Event::Exited(ok)) => if *ok {
            Step { notices: Vec::new(), next: State::Committing }
        } else {
            Step { notices: one_notice(Notice::StageFailed), next: State::Display }
        },
        (State::Committing, Event::Exited(ok)) => Step {
            notices: failure_notice(*ok, Notice::CommitFailed),
            next: State::Display,
        },
        _ => Step { notices: Vec::new(), next: state },
    }
}

/// In a dry run no step leads from a state that waits for no write to one
/// that waits for a write: from the prompt on, nothing is ever written.
pub proof fn lemma_dry_run_never_writes(ctx: UpdateContext, state: State, event: EventView)
    requires
        !ctx.allow_write,
        !state.pending().writes(),
    ensures
        !step_of(ctx, state, event).next.pending().writes(),
{
}

/// The update of a flake is given up exactly where an action fails before
/// the update is over, and once given up it stays so.
pub proof fn lemma_gives_up_on_failure(ctx: UpdateContext, state: State, event: EventView)
    ensures
        state == State::Aborted ==> step_of(ctx, state, event).next == State::Aborted,
        !state.is_over() ==> (step_of(ctx, state, event).next == State::Aborted <==> event
            == EventView::Failed),
{
}

/// The update of a flake ends only at the prompt, on the command that
/// proceeds to the next flake, and once ended it stays so.
pub proof fn lemma_finishes_only_on_next_flake(ctx: UpdateContext, state: State, event: EventView)
    ensures
        state == State::Finished ==> step_of(ctx, state, event).next == State::Finished,
        step_of(ctx, state, event).next == State::Finished && state != State::Finished ==> (state
            == State::AwaitCommand && (event matches EventView::Line(line) && command_for(line)
            == PromptCommand::NextFlake)),
{
}

/// Why a flake could not be shown.
#[derive(Debug, PartialEq, Eq)]
pub enum UpdateError {
    /// The lock file could not be read.
    Lock(LockError),
    /// The node could not be compared with the target.
    Match(MatchError),
    /// The `flake.nix` could not be rewritten.
    Edit(EditError),
    /// The pattern of a commented input could not be compiled. The message
    /// says why.
    Pattern(String),
}

/// What is shown of a flake before the prompt.
#[derive(Debug, PartialEq, Eq)]
pub struct Display {
    /// How the flake's node compares with the target.
    pub info: FlakeInfo,
    /// The text that `flake.nix` would hold.
    pub proposed: String,
    /// The lines of the diff that are printed.
    pub diff: Vec<DiffLine>,
    pub advice: Advice,
    /// The tokens that the prompt offers.
    pub options: String,
}

/// What is shown of a flake before the prompt, for the bytes of its lock
/// file, the text of its `flake.nix` and the answer of the editor of Nix
/// files to the request that puts the URL of the target into that text
/// (see [`crate::flake_nix::edit_request`]): how the node of the flake
/// compares with the target, the text that the `flake.nix` would hold, the
/// diff of the two texts, the advice and the commands on offer. Of the
/// things that can fail, the first in this order decides: the lock file, the
/// comparison, the editor, the pattern of a commented input.
pub fn update_flake(
    flake_id: &str,
    target: &MatchTarget,
    lockfile: &[u8],
    current_flake_nix: &str,
    edited: EditOutcome,
    in_git_repo: bool,
    now: Timestamp,
    window: Window,
    diff_context: usize,
) -> (r: Result<Display, UpdateError>)
    ensures
        match r {
            Ok(shown) => {
                &&& loaded_input(lockfile@, flake_id@) matches Ok(node)
                &&& node_is_comparable(node)
                &&& shown.info.verdict == verdict_of(node, target@, now, window)
                &&& shown.info.matches_target == shown.info.verdict.overall
                &&& shown.info.last_modified == node.locked.last_modified()
                &&& fields_view(shown.info.fields@) == shown_fields(node, shown.info.verdict)
                &&& edit_result(edited@) == Ok::<Seq<char>, EditErrorView>(
                    shown.proposed@,
                )
                &&& line_views(shown.diff@) == reduce_context(
                    line_diff(current_flake_nix@, shown.proposed@),
                    view_changed(),
                    diff_context as nat,
                )
                &&& forall|line: Seq<char>|
                    #[trigger] text_lines(current_flake_nix@).contains(line) && !text_lines(
                        shown.proposed@,
                    ).contains(line) ==> line_views(shown.diff@).contains(
                        DiffLineView::Removed(line),
                    )
                &&& forall|line: Seq<char>|
                    #[trigger] text_lines(shown.proposed@).contains(line) && !text_lines(
                        current_flake_nix@,
                    ).contains(line) ==> line_views(shown.diff@).contains(
                        DiffLineView::Added(line),
                    )
                &&& !shown.advice.changes_exist ==> shown.diff.len() == 0
                &&& pattern_matches(input_comment_pattern(flake_id@), current_flake_nix@)
                    == Some(shown.advice.commented_input)
                &&& shown.advice == advice_for(
                    current_flake_nix@,
                    shown.proposed@,
                    shown.info.matches_target,
                    shown.advice.commented_input,
                )
                &&& shown.options@ == prompt_options(shown.advice.changes_exist, in_git_repo)
            },
            Err(UpdateError::Lock(e)) => loaded_input(lockfile@, flake_id@) == Err::<
                LockfileNodeView,
                LoadFailure,
            >(failure_of(e)),
            Err(UpdateError::Match(_)) => loaded_input(lockfile@, flake_id@) matches Ok(node)
                && !node_is_comparable(node),
            Err(UpdateError::Edit(e)) => loaded_input(lockfile@, flake_id@) matches Ok(node)
                && node_is_comparable(node) && edit_result(edited@) == Err::<
                Seq<char>,
                EditErrorView,
            >(e@),
            Err(UpdateError::Pattern(_)) => loaded_input(lockfile@, flake_id@) matches Ok(node)
                && node_is_comparable(node) && edit_result(edited@) is Ok && pattern_matches(
                input_comment_pattern(flake_id@),
                current_flake_nix@,
            ) is None,
        },
{
    let node = match load_lockfile_input(lockfile, flake_id) {
        Ok(node) => node,
        Err(e) => {
            return Err(UpdateError::Lock(e));
        },
    };
    let info = match print_flake_info(target, &node, now, window) {
        Ok(info) => info,
        Err(e) => {
            return Err(UpdateError::Match(e));
        },
    };
    let proposed = match replace_flake_input_url(edited) {
        Ok(proposed) => proposed,
        Err(e) => {
            return Err(UpdateError::Edit(e));
        },
    };
    let diff = print_diff(current_flake_nix, proposed.as_str(), diff_context);
    let commented = match has_commented_input(flake_id, current_flake_nix) {
        Ok(found) => found,
        Err(message) => {
            return Err(UpdateError::Pattern(message));
        },
    };
    let advice = advise(current_flake_nix, proposed.as_str(), info.matches_target, commented);
    let options = prompt_text(advice.changes_exist, in_git_repo);
    Ok(Display { info, proposed, diff, advice, options })
}

} // verus!
