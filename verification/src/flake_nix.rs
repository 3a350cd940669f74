//! The proposed rewrite of a flake's `flake.nix`.

use vstd::prelude::*;
use vstd::string::*;
use crate::text::push_char;

verus! {

/// Why a `flake.nix` could not be rewritten.
#[derive(Debug, PartialEq, Eq)]
pub enum EditError {
    /// The editor of Nix files refused the text or the attribute. The
    /// message is the editor's own.
    InvalidFlakeNix(String),
    /// The editor of Nix files did not come back from the text.
    EditorCrashed,
}

/// The model of an [`EditError`].
pub enum EditErrorView {
    InvalidFlakeNix(Seq<char>),
    EditorCrashed,
}

impl View for EditError {
    type V = EditErrorView;

    open spec fn view(&self) -> EditErrorView {
        match *self {
            EditError::InvalidFlakeNix(message) => EditErrorView::InvalidFlakeNix(message@),
            EditError::EditorCrashed => EditErrorView::EditorCrashed,
        }
    }
}

/// What the editor of Nix files is asked for: to set the attribute at
/// `path` to the expression `value`.
#[derive(Debug, PartialEq, Eq)]
pub struct EditRequest {
    pub path: String,
    pub value: String,
}

/// The model of an [`EditRequest`].
pub struct EditRequestView {
    pub path: Seq<char>,
    pub value: Seq<char>,
}

impl View for EditRequest {
    type V = EditRequestView;

    open spec fn view(&self) -> EditRequestView {
        EditRequestView { path: self.path@, value: self.value@ }
    }
}

/// How the editor of Nix files answered a request. The editor is run by the
/// caller, which can tell an editor that gives up on a text from one that
/// answers.
#[derive(Debug, PartialEq, Eq)]
pub enum EditOutcome {
    /// The text with the attribute set.
    Edited(String),
    /// The editor refused the text or the attribute, with this message.
    Refused(String),
    /// The editor did not come back from the text.
    Crashed,
}

/// The model of an [`EditOutcome`].
pub enum EditOutcomeView {
    Edited(Seq<char>),
    Refused(Seq<char>),
    Crashed,
}

impl View for EditOutcome {
    type V = EditOutcomeView;

    open spec fn view(&self) -> EditOutcomeView {
        match *self {
            EditOutcome::Edited(text) => EditOutcomeView::Edited(text@),
            EditOutcome::Refused(message) => EditOutcomeView::Refused(message@),
            EditOutcome::Crashed => EditOutcomeView::Crashed,
        }
    }
}

/// A text as Rust's `{:?}` writes a string: quoted and escaped.
pub uninterp spec fn debug_text(text: Seq<char>) -> Seq<char>;

/// The path of the attribute that holds the URL of the input `flake_id`.
pub open spec fn input_url_path(flake_id: Seq<char>) -> Seq<char> {
    "inputs."@ + flake_id + ".url"@
}

/// Formats a string slice with `{:?}`. The contract claims that the outcome
/// depends on the characters alone.
#[verifier::external_body]
fn debug_quoted(text: &str) -> (r: String)
    ensures
        r@ == debug_text(text@),
{
    format!("{text:?}")
}

/// What the editor of Nix files is asked for, so that the URL of the input
/// `flake_id` becomes `new_flake_ref`: the attribute is the `url` of the
/// input, and the expression is the URL as a quoted string.
pub fn edit_request(new_flake_ref: &str, flake_id: &str) -> (r: EditRequest)
    ensures
        r@.path == input_url_path(flake_id@),
        r@.value == debug_text(new_flake_ref@),
{
    let mut path = String::from_str("inputs.");
    path.append(flake_id);
    path.append(".url");
    EditRequest { path, value: debug_quoted(new_flake_ref) }
}

/// The text that a `flake.nix` would hold after the editor's answer.
pub open spec fn edit_result(outcome: EditOutcomeView) -> Result<Seq<char>, EditErrorView> {
    match outcome {
        EditOutcomeView::Edited(text) => Ok(text),
        EditOutcomeView::Refused(message) => Err(EditErrorView::InvalidFlakeNix(message)),
        EditOutcomeView::Crashed => Err(EditErrorView::EditorCrashed),
    }
}

/// The model of an edit's result.
pub open spec fn edit_result_view(r: Result<String, EditError>) -> Result<Seq<char>, EditErrorView> {
    match r {
        Ok(text) => Ok(text@),
        Err(e) => Err(e@),
    }
}

/// The text of a `flake.nix` with the URL of the input replaced, from the
/// answer of the editor of Nix files to the request of [`edit_request`]: an
/// editor that refuses, or that does not come back, makes the `flake.nix`
/// invalid.
pub fn replace_flake_input_url(outcome: EditOutcome) -> (r: Result<String, EditError>)
    ensures
        edit_result_view(r) == edit_result(outcome@),
{
    match outcome {
        EditOutcome::Edited(text) => Ok(text),
        EditOutcome::Refused(message) => Err(EditError::InvalidFlakeNix(message)),
        EditOutcome::Crashed => Err(EditError::EditorCrashed),
    }
}

/// `regex::Error`, whose inside is not looked at here.
#[verifier::external_type_specification]
#[verifier::external_body]
pub struct ExRegexError(regex::Error);

/// Whether a character has a meaning of its own in a pattern.
pub open spec fn is_meta_character(c: char) -> bool {
    c == '\\' || c == '.' || c == '+' || c == '*' || c == '?' || c == '(' || c == ')' || c == '|'
        || c == '[' || c == ']' || c == '{' || c == '}' || c == '^' || c == '$' || c == '#' || c
        == '&' || c == '-' || c == '~'
}

/// A text with a backslash before every character that has a meaning of its
/// own in a pattern.
pub open spec fn escaped_text(text: Seq<char>) -> Seq<char>
    decreases text.len(),
{
    if text.len() == 0 {
        Seq::empty()
    } else if is_meta_character(text.last()) {
        escaped_text(text.drop_last()) + seq!['\\', text.last()]
    } else {
        escaped_text(text.drop_last()) + seq![text.last()]
    }
}

/// Whether the regex that `regex::Regex::new` makes of a pattern matches
/// somewhere in a text. There is no answer where `regex::Regex::new` refuses
/// the pattern.
pub uninterp spec fn pattern_matches(pattern: Seq<char>, text: Seq<char>) -> Option<bool>;

/// Whether a character has a meaning of its own in a pattern.
pub fn is_meta(c: char) -> (r: bool)
    ensures
        r == is_meta_character(c),
{
    c == '\\' || c == '.' || c == '+' || c == '*' || c == '?' || c == '(' || c == ')' || c == '|'
        || c == '[' || c == ']' || c == '{' || c == '}' || c == '^' || c == '$' || c == '#' || c
        == '&' || c == '-' || c == '~'
}

/// Escapes a text for use in a pattern, as `regex::escape` does: each
/// character stays in its place, with a backslash before it where it has a
/// meaning of its own.
pub fn escape_text(text: &str) -> (r: String)
    ensures
        r@ == escaped_text(text@),
{
    broadcast use group_string_axioms;

    let mut r = String::new();
    assert(text@.take(0) =~= Seq::<char>::empty());
    for c in it: text.chars()
        invariant
            it.seq() == text@,
            r@ == escaped_text(text@.take(it.index() as int)),
    {
        let ghost before = r@;
        let ghost i = it.index() as int;
        proof {
            assert(text@.take(i + 1).drop_last() =~= text@.take(i));
            assert(text@.take(i + 1).last() == c);
        }
        if is_meta(c) {
            push_char(&mut r, '\\');
        }
        push_char(&mut r, c);
        proof {
            if is_meta_character(c) {
                assert(r@ =~= before + seq!['\\', c]);
            } else {
                assert(r@ =~= before + seq![c]);
            }
        }
    }
    assert(text@.take(text@.len() as int) =~= text@);
    r
}

/// Makes a regex of the pattern with `regex::Regex::new` and calls
/// `regex::Regex::is_match` on it. The contract claims that the outcome
/// depends on the pattern and on the text alone: whether the pattern is
/// taken, and the answer where it is.
#[verifier::external_body]
fn find_pattern(pattern: &str, text: &str) -> (r: Result<bool, regex::Error>)
    ensures
        match r {
            Ok(found) => pattern_matches(pattern@, text@) == Some(found),
            Err(_) => pattern_matches(pattern@, text@) is None,
        },
{
    regex::Regex::new(pattern).map(|regex| regex.is_match(text))
}

/// The message that a `regex::Error` displays. Nothing is claimed of it.
#[verifier::external_body]
fn regex_error_text(error: &regex::Error) -> (text: String) {
    error.to_string()
}

/// The pattern of a comment that defines the input `flake_id`: a `#`, then
/// the name of the input, with `inputs.` before it or `.url` behind it or
/// neither, then `=`, with white space wherever it may stand.
pub open spec fn input_comment_pattern(flake_id: Seq<char>) -> Seq<char> {
    r"#[ \t\n\r]*(inputs\.)?"@ + escaped_text(flake_id) + r"(\.url)?[ \t\n\r]*="@
}

/// The pattern of a comment that defines the input `flake_id`.
pub fn comment_pattern(flake_id: &str) -> (r: String)
    ensures
        r@ == input_comment_pattern(flake_id@),
{
    let mut pattern = String::from_str(r"#[ \t\n\r]*(inputs\.)?");
    pattern.append(escape_text(flake_id).as_str());
    pattern.append(r"(\.url)?[ \t\n\r]*=");
    pattern
}

/// Whether a comment of a `flake.nix` defines the input `flake_id`: whether
/// the pattern of such a comment matches somewhere in the text. It fails
/// exactly where that pattern is refused; the error is then the message of
/// the refusal.
pub fn has_commented_input(flake_id: &str, contents: &str) -> (r: Result<bool, String>)
    ensures
        match r {
            Ok(found) => pattern_matches(input_comment_pattern(flake_id@), contents@) == Some(
                found,
            ),
            Err(_) => pattern_matches(input_comment_pattern(flake_id@), contents@) is None,
        },
{
    let pattern = comment_pattern(flake_id);
    match find_pattern(pattern.as_str(), contents) {
        Ok(found) => Ok(found),
        Err(error) => Err(regex_error_text(&error)),
    }
}

} // verus!
