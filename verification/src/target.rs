//! Finding the target: the parts of the target that the operator names, the
//! commands that describe it, and the JSON of a declared reference.

use vstd::prelude::*;
use vstd::string::*;
use crate::decode::service_type_name;
use crate::json::{
    clone_json,
    Json,
    json_text,
    json_to_text,
    JsonMember,
    JsonView,
    lemma_members_view,
    members_view,
};
use crate::decode::{input_node, node_of_json};
use crate::lockfile::{
    LockError,
    LockfileNode,
    LockfileNodeView,
    Original,
    OriginalExtra,
    OriginalExtraView,
    OriginalView,
};
use crate::matching::{
    MatchTarget,
    MatchTargetView,
    metadata_of_bytes,
    NixFlakeMetadata,
    NixFlakeMetadataView,
};
use vstd::utf8::{decode_utf8, valid_utf8};
use crate::text::{opt_string_view, strings_view};
use crate::update::Action;

verus! {

/// The place of the last `#` in a text.
pub open spec fn last_hash(text: Seq<char>) -> Option<int>
    decreases text.len(),
{
    if text.len() == 0 {
        None
    } else if text.last() == '#' {
        Some(text.len() - 1)
    } else {
        last_hash(text.drop_last())
    }
}

/// The flake reference and the input that a target names: the input stands
/// behind the last `#`, where there is one.
pub open spec fn target_parts(target: Seq<char>) -> (Seq<char>, Option<Seq<char>>) {
    match last_hash(target) {
        Some(i) => (target.subrange(0, i), Some(target.subrange(i + 1, target.len() as int))),
        None => (target, None),
    }
}

/// The last `#` of a text stands at a place of the text, and no `#` stands
/// behind it.
pub proof fn lemma_last_hash(text: Seq<char>)
    ensures
        match last_hash(text) {
            Some(i) => 0 <= i < text.len() && text[i] == '#' && forall|k: int|
                i < k < text.len() ==> text[k] != '#',
            None => forall|k: int| 0 <= k < text.len() ==> text[k] != '#',
        },
    decreases text.len(),
{
    if text.len() > 0 && text.last() != '#' {
        let front = text.drop_last();
        lemma_last_hash(front);
        assert forall|k: int| 0 <= k < front.len() implies front[k] == text[k] by {}
        match last_hash(front) {
            Some(i) => {
                assert forall|k: int| i < k < text.len() implies text[k] != '#' by {
                    if k < front.len() {
                        assert(front[k] != '#');
                    }
                }
            },
            None => {
                assert forall|k: int| 0 <= k < text.len() implies text[k] != '#' by {
                    if k < front.len() {
                        assert(front[k] != '#');
                    }
                }
            },
        }
    }
}

/// A text whose last `#` stands at `i`.
proof fn lemma_last_hash_at(text: Seq<char>, i: int)
    requires
        0 <= i < text.len(),
        text[i] == '#',
        forall|k: int| i < k < text.len() ==> text[k] != '#',
    ensures
        last_hash(text) == Some(i),
    decreases text.len(),
{
    if text.last() != '#' {
        lemma_last_hash_at(text.drop_last(), i);
    }
}

/// A text without a `#`.
proof fn lemma_no_hash(text: Seq<char>)
    requires
        forall|k: int| 0 <= k < text.len() ==> text[k] != '#',
    ensures
        last_hash(text) is None,
    decreases text.len(),
{
    if text.len() > 0 {
        lemma_no_hash(text.drop_last());
    }
}

/// Splits a target into the flake reference and the input that it names.
pub fn split_target(target: &str) -> (r: (String, Option<String>))
    ensures
        r.0@ == target_parts(target@).0,
        opt_string_view(r.1) == target_parts(target@).1,
{
    let n = target.unicode_len();
    let mut i: usize = n;
    while i > 0
        invariant
            i <= n,
            n == target@.len(),
            forall|k: int| i <= k < n ==> target@[k] != '#',
        decreases i,
    {
        if target.get_char(i - 1) == '#' {
            proof {
                lemma_last_hash_at(target@, i - 1);
            }
            let flake_ref = target.substring_char(0, i - 1).to_owned();
            let input_id = target.substring_char(i, n).to_owned();
            return (flake_ref, Some(input_id));
        }
        i -= 1;
    }
    proof {
        lemma_no_hash(target@);
    }
    (target.to_owned(), None)
}

/// A program and its arguments.
#[derive(Debug, PartialEq, Eq)]
pub struct CommandLine {
    pub program: String,
    pub args: Vec<String>,
}

/// The model of a [`CommandLine`].
pub struct CommandLineView {
    pub program: Seq<char>,
    pub args: Seq<Seq<char>>,
}

impl View for CommandLine {
    type V = CommandLineView;

    open spec fn view(&self) -> CommandLineView {
        CommandLineView { program: self.program@, args: strings_view(self.args@) }
    }
}

/// The model of an optional [`CommandLine`].
pub open spec fn opt_command_view(command: Option<CommandLine>) -> Option<CommandLineView> {
    match command {
        Some(c) => Some(c@),
        None => None,
    }
}

fn push_arg(args: &mut Vec<String>, arg: &str)
    ensures
        strings_view(final(args)@) == strings_view(old(args)@).push(arg@),
{
    let ghost before = strings_view(args@);
    args.push(arg.to_owned());
    assert(strings_view(args@) =~= before.push(arg@));
}

fn no_args() -> (args: Vec<String>)
    ensures
        strings_view(args@) == Seq::<Seq<char>>::empty(),
{
    let args: Vec<String> = Vec::new();
    assert(strings_view(args@) =~= Seq::<Seq<char>>::empty());
    args
}

/// The command that describes a flake reference.
pub open spec fn metadata_command_of(flake_ref: Seq<char>) -> CommandLineView {
    CommandLineView {
        program: "nix"@,
        args: seq!["flake"@, "metadata"@, "--json"@, "--"@, flake_ref],
    }
}

/// The command that describes a flake reference: it prints the metadata of
/// the flake as JSON.
pub fn metadata_command(flake_ref: &str) -> (r: CommandLine)
    ensures
        r@ == metadata_command_of(flake_ref@),
{
    let mut args = no_args();
    push_arg(&mut args, "flake");
    push_arg(&mut args, "metadata");
    push_arg(&mut args, "--json");
    push_arg(&mut args, "--");
    push_arg(&mut args, flake_ref);
    assert(strings_view(args@) =~= metadata_command_of(flake_ref@).args);
    CommandLine { program: String::from_str("nix"), args }
}

/// The command that renders the JSON of a declared reference as a URL-like
/// flake reference.
pub open spec fn flake_ref_url_command_of(json: Seq<char>) -> CommandLineView {
    CommandLineView {
        program: "nix-instantiate"@,
        args: seq![
            "--eval"@,
            "--expr"@,
            "{ json }: builtins.flakeRefToString (builtins.fromJSON json)"@,
            "--raw"@,
            "--argstr"@,
            "json"@,
            json,
        ],
    }
}

/// The command that renders the JSON of a declared reference as a URL-like
/// flake reference.
pub fn flake_ref_url_command(json: &str) -> (r: CommandLine)
    ensures
        r@ == flake_ref_url_command_of(json@),
{
    let mut args = no_args();
    push_arg(&mut args, "--eval");
    push_arg(&mut args, "--expr");
    push_arg(&mut args, "{ json }: builtins.flakeRefToString (builtins.fromJSON json)");
    push_arg(&mut args, "--raw");
    push_arg(&mut args, "--argstr");
    push_arg(&mut args, "json");
    push_arg(&mut args, json);
    assert(strings_view(args@) =~= flake_ref_url_command_of(json@).args);
    CommandLine { program: String::from_str("nix-instantiate"), args }
}

/// The message of the commit that follows an update of the input
/// `flake_id`.
pub open spec fn commit_message_of(flake_id: Seq<char>) -> Seq<char> {
    "chore: bump flake input "@ + flake_id
}

/// The message of the commit that follows an update of the input
/// `flake_id`.
pub fn commit_message(flake_id: &str) -> (r: String)
    ensures
        r@ == commit_message_of(flake_id@),
{
    let mut message = String::from_str("chore: bump flake input ");
    message.append(flake_id);
    message
}

/// The command that an action of the update runs in the directory of the
/// flake, for the actions that run a fixed one.
pub open spec fn action_command_of(action: Action, flake_id: Seq<char>) -> Option<CommandLineView> {
    match action {
        Action::RunNixFlakeUpdate => Some(
            CommandLineView { program: "nix"@, args: seq!["flake"@, "update"@, flake_id] },
        ),
        Action::RunNixFlakeLock => Some(
            CommandLineView { program: "nix"@, args: seq!["flake"@, "lock"@] },
        ),
        Action::RunDirenvReload => Some(
            CommandLineView { program: "direnv"@, args: seq!["exec"@, "."@, "true"@] },
        ),
        Action::GitLog => Some(CommandLineView { program: "git"@, args: seq!["log"@, "-0"@] }),
        Action::GitDiffCached => Some(
            CommandLineView {
                program: "git"@,
                args: seq!["diff"@, "--quiet"@, "--cached"@, "--exit-code"@],
            },
        ),
        Action::GitAdd => Some(
            CommandLineView { program: "git"@, args: seq!["add"@, "flake.nix"@, "flake.lock"@] },
        ),
        Action::GitCommit => Some(
            CommandLineView {
                program: "git"@,
                args: seq!["commit"@, "-m"@, commit_message_of(flake_id)],
            },
        ),
        _ => None,
    }
}

/// The command that an action of the update runs in the directory of the
/// flake.
pub fn action_command(action: Action, flake_id: &str) -> (r: Option<CommandLine>)
    ensures
        opt_command_view(r) == action_command_of(action, flake_id@),
{
    let mut args = no_args();
    match action {
        Action::RunNixFlakeUpdate => {
            push_arg(&mut args, "flake");
            push_arg(&mut args, "update");
            push_arg(&mut args, flake_id);
            assert(strings_view(args@) =~= seq!["flake"@, "update"@, flake_id@]);
            Some(CommandLine { program: String::from_str("nix"), args })
        },
        Action::RunNixFlakeLock => {
            push_arg(&mut args, "flake");
            push_arg(&mut args, "lock");
            assert(strings_view(args@) =~= seq!["flake"@, "lock"@]);
            Some(CommandLine { program: String::from_str("nix"), args })
        },
        Action::RunDirenvReload => {
            push_arg(&mut args, "exec");
            push_arg(&mut args, ".");
            push_arg(&mut args, "true");
            assert(strings_view(args@) =~= seq!["exec"@, "."@, "true"@]);
            Some(CommandLine { program: String::from_str("direnv"), args })
        },
        Action::GitLog => {
            push_arg(&mut args, "log");
            push_arg(&mut args, "-0");
            assert(strings_view(args@) =~= seq!["log"@, "-0"@]);
            Some(CommandLine { program: String::from_str("git"), args })
        },
        Action::GitDiffCached => {
            push_arg(&mut args, "diff");
            push_arg(&mut args, "--quiet");
            push_arg(&mut args, "--cached");
            push_arg(&mut args, "--exit-code");
            assert(strings_view(args@) =~= seq!["diff"@, "--quiet"@, "--cached"@, "--exit-code"@]);
            Some(CommandLine { program: String::from_str("git"), args })
        },
        Action::GitAdd => {
            push_arg(&mut args, "add");
            push_arg(&mut args, "flake.nix");
            push_arg(&mut args, "flake.lock");
            assert(strings_view(args@) =~= seq!["add"@, "flake.nix"@, "flake.lock"@]);
            Some(CommandLine { program: String::from_str("git"), args })
        },
        Action::GitCommit => {
            let message = commit_message(flake_id);
            push_arg(&mut args, "commit");
            push_arg(&mut args, "-m");
            push_arg(&mut args, message.as_str());
            assert(strings_view(args@) =~= seq!["commit"@, "-m"@, commit_message_of(flake_id@)]);
            Some(CommandLine { program: String::from_str("git"), args })
        },
        _ => None,
    }
}

/// A string where there is one, null where there is none.
pub open spec fn string_or_null(text: Option<Seq<char>>) -> JsonView {
    match text {
        Some(s) => JsonView::String(s),
        None => JsonView::Null,
    }
}

/// The members that a declared reference knows, `type` first.
pub open spec fn known_members(original: OriginalView) -> Seq<(Seq<char>, JsonView)> {
    match original {
        OriginalView::Indirect { id, rev, ref_ } => seq![
            ("type"@, JsonView::String("indirect"@)),
            ("id"@, JsonView::String(id)),
            ("rev"@, string_or_null(rev)),
            ("ref"@, string_or_null(ref_)),
        ],
        OriginalView::Path => seq![("type"@, JsonView::String("path"@))],
        OriginalView::Tarball {  } => seq![("type"@, JsonView::String("tarball"@))],
        OriginalView::File => seq![("type"@, JsonView::String("file"@))],
        OriginalView::Git { ref_ } => seq![
            ("type"@, JsonView::String("git"@)),
            ("ref"@, string_or_null(ref_)),
        ],
        OriginalView::Mercurial => seq![("type"@, JsonView::String("mercurial"@))],
        OriginalView::GitService { type_, ref_ } => seq![
            ("type"@, JsonView::String(service_type_name(type_))),
            ("ref"@, string_or_null(ref_)),
        ],
        OriginalView::Other { type_ } => seq![("type"@, JsonView::String(type_))],
    }
}

/// The JSON object of a declared reference: the members that its kind
/// knows, then the members that were kept beside them.
pub open spec fn original_json(original: OriginalExtraView) -> JsonView {
    JsonView::Object(known_members(original.inner) + original.extra)
}

fn push_member(members: &mut Vec<JsonMember>, key: &str, value: Json)
    ensures
        members_view(final(members)@) == members_view(old(members)@).push((key@, value@)),
{
    let ghost before = members@;
    members.push(JsonMember { key: key.to_owned(), value });
    proof {
        lemma_members_view(before);
        lemma_members_view(members@);
        assert(members_view(members@) =~= members_view(before).push((key@, value@)));
    }
}

fn string_json(text: &str) -> (r: Json)
    ensures
        r@ == JsonView::String(text@),
{
    Json::String(text.to_owned())
}

fn opt_string_json(text: &Option<String>) -> (r: Json)
    ensures
        r@ == string_or_null(opt_string_view(*text)),
{
    match text {
        Some(s) => Json::String(s.clone()),
        None => Json::Null,
    }
}

impl Original {
    /// The members that the reference knows, `type` first.
    pub fn members(&self) -> (r: Vec<JsonMember>)
        ensures
            members_view(r@) == known_members(self@),
    {
        let mut members: Vec<JsonMember> = Vec::new();
        proof {
            lemma_members_view(members@);
        }
        match self {
            Original::Indirect { id, rev, ref_ } => {
                push_member(&mut members, "type", string_json("indirect"));
                push_member(&mut members, "id", string_json(id.as_str()));
                push_member(&mut members, "rev", opt_string_json(rev));
                push_member(&mut members, "ref", opt_string_json(ref_));
            },
            Original::Path => {
                push_member(&mut members, "type", string_json("path"));
            },
            Original::Tarball {  } => {
                push_member(&mut members, "type", string_json("tarball"));
            },
            Original::File => {
                push_member(&mut members, "type", string_json("file"));
            },
            Original::Git { ref_ } => {
                push_member(&mut members, "type", string_json("git"));
                push_member(&mut members, "ref", opt_string_json(ref_));
            },
            Original::Mercurial => {
                push_member(&mut members, "type", string_json("mercurial"));
            },
            Original::GitService { type_, ref_ } => {
                push_member(&mut members, "type", string_json(type_.name()));
                push_member(&mut members, "ref", opt_string_json(ref_));
            },
            Original::Other { type_ } => {
                push_member(&mut members, "type", string_json(type_.as_str()));
            },
        }
        assert(members_view(members@) =~= known_members(self@));
        members
    }
}

impl OriginalExtra {
    /// The JSON object of the reference.
    pub fn to_json(&self) -> (r: Json)
        ensures
            r@ == original_json(self@),
    {
        let mut members = self.inner.members();
        let ghost known = members_view(members@);
        let ghost extra = members_view(self.extra@);
        proof {
            lemma_members_view(self.extra@);
        }
        let mut i: usize = 0;
        assert(extra.take(0) =~= Seq::<(Seq<char>, JsonView)>::empty());
        assert(members_view(members@) =~= known + extra.take(0));
        while i < self.extra.len()
            invariant
                i <= self.extra.len(),
                extra == members_view(self.extra@),
                extra.len() == self.extra.len(),
                forall|k: int|
                    0 <= k < self.extra.len() ==> #[trigger] extra[k] == (
                        self.extra[k].key@,
                        self.extra[k].value@,
                    ),
                members_view(members@) == known + extra.take(i as int),
            decreases self.extra.len() - i,
        {
            let value = clone_json(&self.extra[i].value);
            push_member(&mut members, self.extra[i].key.as_str(), value);
            assert(extra.take(i + 1) =~= extra.take(i as int).push(extra[i as int]));
            assert(members_view(members@) =~= known + extra.take(i + 1));
            i += 1;
        }
        assert(extra.take(i as int) =~= extra);
        Json::Object(members)
    }

    /// The JSON text of the reference, as it is handed to the command that
    /// renders it as a URL-like flake reference.
    pub fn to_json_text(&self) -> (r: Option<String>)
        ensures
            opt_string_view(r) == json_text(original_json(self@)),
    {
        let json = self.to_json();
        json_to_text(&json)
    }
}

/// Why the target could not be described.
#[derive(Debug, PartialEq, Eq)]
pub enum TargetError {
    /// The command that describes the target failed.
    CommandFailed,
    /// What the command printed is not what is read here. The message says
    /// why.
    Format(String),
    /// What the command printed is no UTF-8.
    InvalidUtf8,
}

/// Calls `String::from_utf8`. The contract claims that the text comes back
/// exactly where the bytes are UTF-8, and that it is what they encode.
#[verifier::external_body]
fn text_of_bytes(bytes: Vec<u8>) -> (r: Option<String>)
    ensures
        match r {
            Some(text) => valid_utf8(bytes@) && text@ == decode_utf8(bytes@),
            None => !valid_utf8(bytes@),
        },
{
    String::from_utf8(bytes).ok()
}

/// Reads the metadata of a flake from what the command that describes it
/// printed; `succeeded` says whether the command succeeded.
pub fn get_flake_ref_metadata(succeeded: bool, stdout: &[u8]) -> (r: Result<
    NixFlakeMetadata,
    TargetError,
>)
    ensures
        match r {
            Ok(metadata) => succeeded && metadata_of_bytes(stdout@) == Some(metadata@),
            Err(TargetError::CommandFailed) => !succeeded,
            Err(TargetError::Format(_)) => succeeded && metadata_of_bytes(stdout@) is None,
            Err(TargetError::InvalidUtf8) => false,
        },
{
    if !succeeded {
        return Err(TargetError::CommandFailed);
    }
    match NixFlakeMetadata::decode(stdout) {
        Ok(metadata) => Ok(metadata),
        Err(e) => Err(TargetError::Format(e.message())),
    }
}

/// Reads the URL-like flake reference from what the command that renders
/// it printed; `succeeded` says whether the command succeeded.
pub fn get_flake_ref_url(succeeded: bool, stdout: Vec<u8>) -> (r: Result<String, TargetError>)
    ensures
        match r {
            Ok(url) => succeeded && valid_utf8(stdout@) && url@ == decode_utf8(stdout@),
            Err(TargetError::CommandFailed) => !succeeded,
            Err(TargetError::InvalidUtf8) => succeeded && !valid_utf8(stdout@),
            Err(TargetError::Format(_)) => false,
        },
{
    if !succeeded {
        return Err(TargetError::CommandFailed);
    }
    match text_of_bytes(stdout) {
        Some(url) => Ok(url),
        None => Err(TargetError::InvalidUtf8),
    }
}

/// How far the target is found once the flake is described.
#[derive(Debug, PartialEq, Eq)]
pub enum Resolution {
    /// The target is the flake itself.
    Resolved(MatchTarget),
    /// The target is an input of the flake: its reference has yet to be
    /// rendered as a URL-like flake reference, from this JSON.
    NeedsUrl { input: LockfileNode, json: String },
}

/// The model of a [`Resolution`].
pub enum ResolutionView {
    Resolved(MatchTargetView),
    NeedsUrl { input: LockfileNodeView, json: Seq<char> },
}

impl View for Resolution {
    type V = ResolutionView;

    open spec fn view(&self) -> ResolutionView {
        match *self {
            Resolution::Resolved(target) => ResolutionView::Resolved(target@),
            Resolution::NeedsUrl { input, json } => ResolutionView::NeedsUrl {
                input: input@,
                json: json@,
            },
        }
    }
}

/// Why the input of the described flake could not be made the target.
#[derive(Debug, PartialEq, Eq)]
pub enum InputError {
    /// The lock document of the flake has no such input, or its node is not
    /// of the shape that is read here.
    Lock(LockError),
    /// The reference of the input has no JSON text.
    NoJson,
}

/// The JSON text of the declared reference of an input of the described
/// flake, where the input is found and its reference has a text.
pub open spec fn input_to_resolve(metadata: NixFlakeMetadataView, input_id: Seq<char>) -> Option<
    (LockfileNodeView, Seq<char>),
> {
    match input_node(metadata.locks, input_id) {
        Some(j) => match node_of_json(j) {
            Some(node) => match json_text(original_json(node.original)) {
                Some(json) => Some((node, json)),
                None => None,
            },
            None => None,
        },
        None => None,
    }
}

/// Goes on from the description of a flake to the target: the flake itself
/// where no input is named, and else the named input, whose reference has
/// yet to be rendered.
pub fn resolve_target(metadata: NixFlakeMetadata, input_id: Option<&str>) -> (r: Result<
    Resolution,
    InputError,
>)
    ensures
        match input_id {
            None => r matches Ok(Resolution::Resolved(target)) && target@ == (MatchTargetView {
                locked: metadata@.locked,
                original: metadata@.resolved,
                flake_ref_url: metadata@.resolved_url,
            }),
            Some(id) => match r {
                Ok(Resolution::NeedsUrl { input, json }) => input_to_resolve(metadata@, id@)
                    == Some((input@, json@)),
                Ok(Resolution::Resolved(_)) => false,
                Err(InputError::Lock(LockError::MissingData)) => input_node(metadata@.locks, id@)
                    is None,
                Err(InputError::Lock(LockError::Format(_))) => input_node(metadata@.locks, id@)
                    matches Some(j) && node_of_json(j) is None,
                Err(InputError::NoJson) => input_node(metadata@.locks, id@) matches Some(j)
                    && node_of_json(j) matches Some(node) && json_text(
                    original_json(node.original),
                ) is None,
            },
        },
{
    match input_id {
        None => Ok(Resolution::Resolved(MatchTarget::FlakeMetadata(metadata))),
        Some(id) => {
            let NixFlakeMetadata { locks, .. } = metadata;
            match locks.extract_input(id) {
                Ok(input) => match input.original.to_json_text() {
                    Some(json) => Ok(Resolution::NeedsUrl { input, json }),
                    None => Err(InputError::NoJson),
                },
                Err(e) => Err(InputError::Lock(e)),
            }
        },
    }
}

/// The target that is an input, with its reference rendered.
pub fn input_target(input: LockfileNode, flake_ref_url: String) -> (r: MatchTarget)
    ensures
        r@ == (MatchTargetView {
            locked: input@.locked,
            original: input@.original.inner,
            flake_ref_url: flake_ref_url@,
        }),
{
    MatchTarget::FlakeInput { input, flake_ref_url }
}

} // verus!
