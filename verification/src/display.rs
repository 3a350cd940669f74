//! What is shown of a flake, and what is advised at the prompt.

use vstd::prelude::*;
use vstd::string::*;
use crate::text::{opt_str_view, str_eq};
use crate::command::{PromptCommand, token_of};
use crate::lockfile::{LockfileNode, LockfileNodeView};
use crate::matching::{
    MatchError,
    MatchTarget,
    MatchTargetView,
    MatchVerdict,
    node_is_comparable,
    Timestamp,
    verdict_of,
    Window,
};

verus! {

/// Which of a node's fields is shown.
#[derive(Clone, Copy, Debug, PartialEq, Eq, Structural)]
pub enum FieldKind {
    Ref,
    Rev,
    Url,
}

/// A field of a node as it is shown: in the colour of agreement where it
/// agrees with the target, in that of disagreement where it does not.
#[derive(Debug, PartialEq, Eq)]
pub struct ShownField {
    pub kind: FieldKind,
    pub text: String,
    pub agrees: bool,
}

/// The model of a [`ShownField`].
pub struct ShownFieldView {
    pub kind: FieldKind,
    pub text: Seq<char>,
    pub agrees: bool,
}

impl View for ShownField {
    type V = ShownFieldView;

    open spec fn view(&self) -> ShownFieldView {
        ShownFieldView { kind: self.kind, text: self.text@, agrees: self.agrees }
    }
}

/// The models of a sequence of shown fields.
pub open spec fn fields_view(fields: Seq<ShownField>) -> Seq<ShownFieldView> {
    Seq::new(fields.len(), |i: int| fields[i]@)
}

/// How one field is shown. A field that agrees is left out where its
/// agreement is not to be signalled once more; a field that disagrees is
/// always shown.
pub open spec fn shown_field(
    kind: FieldKind,
    value: Option<Seq<char>>,
    agrees: bool,
    signalled: bool,
) -> Seq<ShownFieldView> {
    match value {
        Some(text) => if agrees && signalled {
            seq![]
        } else {
            seq![ShownFieldView { kind, text, agrees }]
        },
        None => seq![],
    }
}

/// The fields of a node that are shown: the branch or tag where there is
/// one, then the revision, then the URL, each in the colour of its own
/// agreement. The branch or tag and the revision share one signal: the
/// agreement of the revision is left out where the branch or tag has
/// signalled agreement already. Nothing else is left out.
pub open spec fn shown_fields(node: LockfileNodeView, verdict: MatchVerdict) -> Seq<ShownFieldView> {
    let ref_ = node.original.inner.ref_();
    let rev = node.locked.rev();
    let url = node.locked.url_no_git();
    shown_field(FieldKind::Ref, ref_, verdict.ref_ok, false) + shown_field(
        FieldKind::Rev,
        rev,
        verdict.rev_ok,
        ref_ is Some && verdict.ref_ok,
    ) + shown_field(FieldKind::Url, url, verdict.url_ok, false)
}

fn push_field(
    fields: &mut Vec<ShownField>,
    kind: FieldKind,
    value: Option<&str>,
    agrees: bool,
    signalled: bool,
)
    ensures
        fields_view(final(fields)@) == fields_view(old(fields)@) + shown_field(
            kind,
            opt_str_view(value),
            agrees,
            signalled,
        ),
{
    let ghost before = fields_view(fields@);
    match value {
        Some(text) => {
            if !(agrees && signalled) {
                fields.push(ShownField { kind, text: text.to_owned(), agrees });
                assert(fields_view(fields@) =~= before + seq![
                    ShownFieldView { kind, text: text@, agrees },
                ]);
            } else {
                assert(fields_view(fields@) =~= before + Seq::<ShownFieldView>::empty());
            }
        },
        None => {
            assert(fields_view(fields@) =~= before + Seq::<ShownFieldView>::empty());
        },
    }
}

/// The fields of a node that are shown.
pub fn fields_to_show(node: &LockfileNode, verdict: MatchVerdict) -> (r: Vec<ShownField>)
    ensures
        fields_view(r@) == shown_fields(node@, verdict),
{
    let ref_ = node.original.inner.ref_();
    let rev = node.locked.rev();
    let url = node.locked.url_no_git();
    let mut fields: Vec<ShownField> = Vec::new();
    assert(fields_view(fields@) =~= Seq::<ShownFieldView>::empty());
    push_field(&mut fields, FieldKind::Ref, ref_, verdict.ref_ok, false);
    push_field(&mut fields, FieldKind::Rev, rev, verdict.rev_ok, ref_.is_some() && verdict.ref_ok);
    push_field(&mut fields, FieldKind::Url, url, verdict.url_ok, false);
    assert(fields_view(fields@) =~= shown_fields(node@, verdict));
    fields
}

/// What is shown of a flake's node.
#[derive(Debug, PartialEq, Eq)]
pub struct FlakeInfo {
    pub fields: Vec<ShownField>,
    /// The time of the last modification, in seconds since 1970.
    pub last_modified: Option<u64>,
    /// Whether the node already satisfies the target.
    pub matches_target: bool,
    pub verdict: MatchVerdict,
}

/// Compares a node with the target and says what is shown of it.
pub fn print_flake_info(
    target: &MatchTarget,
    lockfile_node: &LockfileNode,
    now: Timestamp,
    window: Window,
) -> (r: Result<FlakeInfo, MatchError>)
    ensures
        r is Ok <==> node_is_comparable(lockfile_node@),
        r matches Ok(info) ==> {
            &&& info.verdict == verdict_of(lockfile_node@, target@, now, window)
            &&& info.matches_target == info.verdict.overall
            &&& info.last_modified == lockfile_node@.locked.last_modified()
            &&& fields_view(info.fields@) == shown_fields(lockfile_node@, info.verdict)
        },
{
    match crate::matching::matches(lockfile_node, target, now, window) {
        Ok(verdict) => Ok(
            FlakeInfo {
                fields: fields_to_show(lockfile_node, verdict),
                last_modified: lockfile_node.locked.last_modified(),
                matches_target: verdict.overall,
                verdict,
            },
        ),
        Err(e) => Err(e),
    }
}

/// What names the target where it is announced: its branch or tag, else
/// its revision, else its URL.
pub open spec fn target_label(target: MatchTargetView) -> Option<Seq<char>> {
    if target.original.ref_() is Some {
        target.original.ref_()
    } else if target.locked.rev() is Some {
        target.locked.rev()
    } else {
        target.locked.url_no_git()
    }
}

/// What names the target where it is announced.
pub fn label_of_target(target: &MatchTarget) -> (r: Option<&str>)
    ensures
        opt_str_view(r) == target_label(target@),
{
    match target.original().ref_() {
        Some(ref_) => Some(ref_),
        None => match target.locked().rev() {
            Some(rev) => Some(rev),
            None => target.locked().url_no_git(),
        },
    }
}

/// What is done with a flake.
#[derive(Clone, Copy, Debug, PartialEq, Eq, Structural)]
pub enum FlakeTask {
    /// The flake already satisfies the target: it is passed over.
    Skip,
    /// The flake is listed.
    List,
    /// The flake is updated at the prompt.
    Update,
}

/// What is done with a flake whose node compares so with the target.
pub open spec fn task_for(verdict: MatchVerdict, updating: bool) -> FlakeTask {
    if verdict.overall {
        FlakeTask::Skip
    } else if updating {
        FlakeTask::Update
    } else {
        FlakeTask::List
    }
}

/// Decides what is done with a flake: one that satisfies the target is
/// passed over, any other is listed or updated.
pub fn process_flake(
    lockfile_node: &LockfileNode,
    target: &MatchTarget,
    now: Timestamp,
    window: Window,
    updating: bool,
) -> (r: Result<FlakeTask, MatchError>)
    ensures
        r is Ok <==> node_is_comparable(lockfile_node@),
        r matches Ok(task) ==> task == task_for(
            verdict_of(lockfile_node@, target@, now, window),
            updating,
        ),
{
    match crate::matching::matches(lockfile_node, target, now, window) {
        Ok(verdict) => Ok(
            if verdict.overall {
                FlakeTask::Skip
            } else if updating {
                FlakeTask::Update
            } else {
                FlakeTask::List
            },
        ),
        Err(e) => Err(e),
    }
}

/// What the operator is advised of before the prompt.
#[derive(Clone, Copy, Debug, PartialEq, Eq, Structural)]
pub struct Advice {
    /// The proposed text differs from the current one.
    pub changes_exist: bool,
    /// A comment of the `flake.nix` defines the input: it should be removed
    /// in the editor before the diff is applied.
    pub commented_input: bool,
    /// The `flake.nix` is up to date but the lock file does not match the
    /// target: lock, or refresh direnv.
    pub lock_outdated: bool,
    /// The lock file matches the target, but the roots may be stale: delete
    /// them, or refresh direnv.
    pub gcroots_may_be_stale: bool,
}

/// The advice for a flake whose `flake.nix` holds `current` and would hold
/// `proposed`.
pub open spec fn advice_for(
    current: Seq<char>,
    proposed: Seq<char>,
    lock_matches_target: bool,
    commented_input: bool,
) -> Advice {
    Advice {
        changes_exist: proposed != current,
        commented_input,
        lock_outdated: proposed == current && !lock_matches_target,
        gcroots_may_be_stale: lock_matches_target,
    }
}

/// The advice for a flake.
pub fn advise(current: &str, proposed: &str, lock_matches_target: bool, commented_input: bool) -> (r:
    Advice)
    ensures
        r == advice_for(current@, proposed@, lock_matches_target, commented_input),
{
    let changes_exist = !crate::text::str_eq(proposed, current);
    Advice {
        changes_exist,
        commented_input,
        lock_outdated: !changes_exist && !lock_matches_target,
        gcroots_may_be_stale: lock_matches_target,
    }
}

/// The tokens that the prompt offers, each followed by a comma but the
/// last: applying is offered where there is a change, committing where the
/// flake lies in a Git repository.
pub open spec fn prompt_options(changes_exist: bool, in_git_repo: bool) -> Seq<char> {
    (if changes_exist {
        token_of(PromptCommand::ApplyDiff) + seq![',']
    } else {
        Seq::empty()
    }) + token_of(PromptCommand::NextFlake) + seq![','] + token_of(PromptCommand::LaunchEditor)
        + seq![','] + token_of(PromptCommand::LaunchShell) + seq![','] + token_of(
        PromptCommand::RunNixFlakeUpdate,
    ) + seq![','] + token_of(PromptCommand::DeleteGcroots) + seq![','] + token_of(
        PromptCommand::Lock,
    ) + seq![','] + token_of(PromptCommand::RefreshDirenv) + seq![','] + (if in_git_repo {
        token_of(PromptCommand::Commit) + seq![',']
    } else {
        Seq::empty()
    }) + token_of(PromptCommand::PrintHelp)
}

fn push_option(text: &mut String, command: PromptCommand)
    ensures
        final(text)@ == old(text)@ + token_of(command) + seq![','],
{
    proof {
        reveal_strlit(",");
    }
    let ghost before = text@;
    text.append(command.token());
    text.append(",");
    assert(text@ =~= before + token_of(command) + seq![',']);
}

/// The tokens that the prompt offers.
pub fn prompt_text(changes_exist: bool, in_git_repo: bool) -> (r: String)
    ensures
        r@ == prompt_options(changes_exist, in_git_repo),
{
    let mut text = String::new();
    if changes_exist {
        push_option(&mut text, PromptCommand::ApplyDiff);
    }
    assert(text@ =~= (if changes_exist {
        token_of(PromptCommand::ApplyDiff) + seq![',']
    } else {
        Seq::empty()
    }));
    push_option(&mut text, PromptCommand::NextFlake);
    push_option(&mut text, PromptCommand::LaunchEditor);
    push_option(&mut text, PromptCommand::LaunchShell);
    push_option(&mut text, PromptCommand::RunNixFlakeUpdate);
    push_option(&mut text, PromptCommand::DeleteGcroots);
    push_option(&mut text, PromptCommand::Lock);
    push_option(&mut text, PromptCommand::RefreshDirenv);
    let ghost fixed = text@;
    if in_git_repo {
        push_option(&mut text, PromptCommand::Commit);
    }
    assert(text@ =~= fixed + (if in_git_repo {
        token_of(PromptCommand::Commit) + seq![',']
    } else {
        Seq::empty()
    }));
    text.append(PromptCommand::PrintHelp.token());
    assert(text@ =~= prompt_options(changes_exist, in_git_repo));
    text
}

} // verus!
