//! Looking a flake up in the flake registry of the user.

use vstd::prelude::*;
use vstd::string::*;
use crate::text::{opt_string_view, opt_strings_view, str_eq, strings_view};

verus! {

/// `sonic_rs::Error`, whose inside is not looked at here.
#[verifier::external_type_specification]
#[verifier::external_body]
pub struct ExSonicError(sonic_rs::Error);

/// The paths of a sequence of paths, as characters.
pub open spec fn paths_view(paths: Seq<Vec<String>>) -> Seq<Seq<Seq<char>>> {
    Seq::new(paths.len(), |i: int| strings_view(paths[i]@))
}

/// The JSON texts that `sonic_rs::get_many` finds at the paths of keys, in
/// the order of the paths, where it succeeds.
pub uninterp spec fn raws_at(input: Seq<char>, paths: Seq<Seq<Seq<char>>>) -> Option<
    Seq<Option<Seq<char>>>,
>;

/// What a lookup at a path of keys gives.
pub enum Lookup {
    /// The JSON text of the value at the path.
    Found(Seq<char>),
    /// Nothing is there: a key of the path is not in the document.
    Missing,
    /// The reader failed for another reason.
    Failed,
}

/// What `sonic_rs::get` gives for a path of keys: the JSON text that it
/// finds, or how it fails.
pub uninterp spec fn lookup_at(input: Seq<char>, path: Seq<Seq<char>>) -> Lookup;

/// Whether a `sonic_rs::Error` says that nothing was found.
pub uninterp spec fn says_not_found(error: sonic_rs::Error) -> bool;

/// The JSON text at a path of keys, where the lookup finds one.
pub open spec fn raw_at(input: Seq<char>, path: Seq<Seq<char>>) -> Option<Seq<char>> {
    match lookup_at(input, path) {
        Lookup::Found(raw) => Some(raw),
        _ => None,
    }
}

/// The JSON texts of the items of an array as `sonic_rs::to_array_iter`
/// hands them out; an item at which the reader fails is `None`, and it is
/// the last.
pub uninterp spec fn items_of_raw(raw: Seq<char>) -> Seq<Option<Seq<char>>>;

/// The unsigned 64-bit integer that a JSON text is, where it is one.
pub uninterp spec fn u64_of_raw(raw: Seq<char>) -> Option<u64>;

/// The boolean that a JSON text is, where it is one.
pub uninterp spec fn bool_of_raw(raw: Seq<char>) -> Option<bool>;

/// The string that a JSON text is, where it is one.
pub uninterp spec fn str_of_raw(raw: Seq<char>) -> Option<Seq<char>>;

/// Whether the path `a` is the path `b` or a beginning of it.
pub open spec fn is_prefix_path(a: Seq<Seq<char>>, b: Seq<Seq<char>>) -> bool {
    a.len() <= b.len() && forall|i: int| 0 <= i < a.len() ==> a[i] == b[i]
}

/// Whether the paths lie apart: none is another of them or a beginning of
/// another.
pub open spec fn paths_apart(paths: Seq<Seq<Seq<char>>>) -> bool {
    forall|i: int, k: int|
        0 <= i < paths.len() && 0 <= k < paths.len() && i != k ==> !is_prefix_path(
            #[trigger] paths[i],
            #[trigger] paths[k],
        )
}

/// Builds a `sonic_rs::PointerTree` of the paths and calls
/// `sonic_rs::get_many`; each value that is found comes back as its JSON
/// text. The contract claims that the outcome depends on the input and the
/// paths alone. The paths must lie apart: where one is another or a
/// beginning of another, the reader counts a path twice on a document that
/// repeats a key, and does not come back in order.
#[verifier::external_body]
fn many_raw(input: &str, paths: &Vec<Vec<String>>) -> (r: Result<Vec<Option<String>>, sonic_rs::Error>)
    requires
        paths_apart(paths_view(paths@)),
    ensures
        match r {
            Ok(found) => raws_at(input@, paths_view(paths@)) == Some(opt_strings_view(found@)),
            Err(_) => raws_at(input@, paths_view(paths@)) is None,
        },
{
    let mut tree = sonic_rs::PointerTree::new();
    for path in paths {
        tree.add_path(path);
    }
    sonic_rs::get_many(input, &tree).map(
        |found| found.into_iter().map(|v| v.map(|v| v.as_raw_str().to_owned())).collect(),
    )
}

/// Calls `sonic_rs::get`; the value that is found comes back as its JSON
/// text. The contract claims that the outcome depends on the input and the
/// path alone: the text that is found, or whether the error says that
/// nothing was found.
#[verifier::external_body]
fn one_raw(input: &str, path: &Vec<String>) -> (r: Result<String, sonic_rs::Error>)
    ensures
        match r {
            Ok(raw) => lookup_at(input@, strings_view(path@)) == Lookup::Found(raw@),
            Err(error) => lookup_at(input@, strings_view(path@)) == if says_not_found(error) {
                Lookup::Missing
            } else {
                Lookup::Failed
            },
        },
{
    sonic_rs::get(input, path).map(|v| v.as_raw_str().to_owned())
}

/// Calls `sonic_rs::to_array_iter` and hands each item out as its JSON
/// text, or as nothing where the reader fails at it. The contract claims
/// that the outcome depends on the text alone.
#[verifier::external_body]
fn array_items(raw: &str) -> (r: Vec<Option<String>>)
    ensures
        opt_strings_view(r@) == items_of_raw(raw@),
{
    sonic_rs::to_array_iter(raw).map(|item| item.ok().map(|v| v.as_raw_str().to_owned())).collect()
}

/// Reads a JSON text as a `sonic_rs::LazyValue` and asks it for an unsigned
/// 64-bit integer. The contract claims that the outcome depends on the text
/// alone.
#[verifier::external_body]
fn raw_u64(raw: &str) -> (r: Option<u64>)
    ensures
        r == u64_of_raw(raw@),
{
    sonic_rs::from_str::<sonic_rs::LazyValue>(raw).ok().and_then(
        |v| sonic_rs::JsonValueTrait::as_u64(&v),
    )
}

/// Reads a JSON text as a `sonic_rs::LazyValue` and asks it for a boolean.
/// The contract claims that the outcome depends on the text alone.
#[verifier::external_body]
fn raw_bool(raw: &str) -> (r: Option<bool>)
    ensures
        r == bool_of_raw(raw@),
{
    sonic_rs::from_str::<sonic_rs::LazyValue>(raw).ok().and_then(
        |v| sonic_rs::JsonValueTrait::as_bool(&v),
    )
}

/// Reads a JSON text as a `sonic_rs::LazyValue` and asks it for a string.
/// The contract claims that the outcome depends on the text alone.
#[verifier::external_body]
fn raw_str(raw: &str) -> (r: Option<String>)
    ensures
        opt_string_view(r) == str_of_raw(raw@),
{
    sonic_rs::from_str::<sonic_rs::LazyValue>(raw).ok().and_then(
        |v| sonic_rs::JsonValueTrait::as_str(&v).map(|s| s.to_owned()),
    )
}

/// Calls `sonic_rs::Error::is_not_found`. The contract claims that the
/// answer depends on the error alone.
#[verifier::external_body]
fn error_is_not_found(error: &sonic_rs::Error) -> (r: bool)
    ensures
        r == says_not_found(*error),
{
    error.is_not_found()
}

/// The message that a `sonic_rs::Error` displays. Nothing is claimed of
/// it.
#[verifier::external_body]
fn sonic_error_text(error: &sonic_rs::Error) -> (text: String) {
    error.to_string()
}

/// Why a flake could not be looked up in the registry.
#[derive(Debug, PartialEq, Eq)]
pub enum RegistryError {
    /// The reader of JSON failed. The message is its own.
    Json(String),
    /// A value that must be there is not.
    Missing,
    /// The registry is of a version that is not read here.
    UnsupportedVersion(u64),
    /// A value of the registry is of the wrong kind.
    Invalid,
    /// The registry has no entry for the flake.
    NoSuchFlake,
    /// Of the paths that are looked up in one pass, one is another or a
    /// beginning of another.
    OverlappingPaths,
}

/// The kind of a [`RegistryError`].
pub enum RegistryErrorKind {
    OverlappingPaths,
    Json,
    Missing,
    UnsupportedVersion(u64),
    Invalid,
    NoSuchFlake,
}

impl View for RegistryError {
    type V = RegistryErrorKind;

    open spec fn view(&self) -> RegistryErrorKind {
        match *self {
            RegistryError::Json(_) => RegistryErrorKind::Json,
            RegistryError::Missing => RegistryErrorKind::Missing,
            RegistryError::UnsupportedVersion(n) => RegistryErrorKind::UnsupportedVersion(n),
            RegistryError::Invalid => RegistryErrorKind::Invalid,
            RegistryError::NoSuchFlake => RegistryErrorKind::NoSuchFlake,
            RegistryError::OverlappingPaths => RegistryErrorKind::OverlappingPaths,
        }
    }
}

/// The JSON texts at two paths of keys, both of which must be there. Paths
/// that do not lie apart are refused.
pub open spec fn two_raws(input: Seq<char>, p1: Seq<Seq<char>>, p2: Seq<Seq<char>>) -> Result<
    (Seq<char>, Seq<char>),
    RegistryErrorKind,
> {
    if !paths_apart(seq![p1, p2]) {
        Err(RegistryErrorKind::OverlappingPaths)
    } else {
        match raws_at(input, seq![p1, p2]) {
            None => Err(RegistryErrorKind::Json),
            Some(found) => if found.len() == 2 && found[0] is Some && found[1] is Some {
                Ok((found[0]->0, found[1]->0))
            } else {
                Err(RegistryErrorKind::Missing)
            },
        }
    }
}

/// The JSON texts at three paths of keys, all of which must be there.
/// Paths that do not lie apart are refused.
pub open spec fn three_raws(
    input: Seq<char>,
    p1: Seq<Seq<char>>,
    p2: Seq<Seq<char>>,
    p3: Seq<Seq<char>>,
) -> Result<(Seq<char>, Seq<char>, Seq<char>), RegistryErrorKind> {
    if !paths_apart(seq![p1, p2, p3]) {
        Err(RegistryErrorKind::OverlappingPaths)
    } else {
        match raws_at(input, seq![p1, p2, p3]) {
            None => Err(RegistryErrorKind::Json),
            Some(found) => if found.len() == 3 && found[0] is Some && found[1] is Some
                && found[2] is Some {
                Ok((found[0]->0, found[1]->0, found[2]->0))
            } else {
                Err(RegistryErrorKind::Missing)
            },
        }
    }
}

/// Whether the path `a` is the path `b` or a beginning of it.
pub fn is_prefix_of(a: &Vec<String>, b: &Vec<String>) -> (r: bool)
    ensures
        r == is_prefix_path(strings_view(a@), strings_view(b@)),
{
    if a.len() > b.len() {
        return false;
    }
    let mut i: usize = 0;
    while i < a.len()
        invariant
            i <= a.len(),
            a.len() <= b.len(),
            forall|k: int| 0 <= k < i ==> a[k]@ == b[k]@,
        decreases a.len() - i,
    {
        if !str_eq(a[i].as_str(), b[i].as_str()) {
            assert(strings_view(a@)[i as int] != strings_view(b@)[i as int]);
            return false;
        }
        i += 1;
    }
    true
}

/// Whether the paths lie apart.
pub fn are_apart(paths: &Vec<Vec<String>>) -> (r: bool)
    ensures
        r == paths_apart(paths_view(paths@)),
{
    let mut i: usize = 0;
    while i < paths.len()
        invariant
            i <= paths.len(),
            forall|x: int, y: int|
                0 <= x < i && 0 <= y < paths.len() && x != y ==> !is_prefix_path(
                    #[trigger] paths_view(paths@)[x],
                    #[trigger] paths_view(paths@)[y],
                ),
        decreases paths.len() - i,
    {
        let mut k: usize = 0;
        while k < paths.len()
            invariant
                i < paths.len(),
                k <= paths.len(),
                forall|y: int|
                    0 <= y < k && i != y ==> !is_prefix_path(
                        paths_view(paths@)[i as int],
                        #[trigger] paths_view(paths@)[y],
                    ),
            decreases paths.len() - k,
        {
            if i != k && is_prefix_of(&paths[i], &paths[k]) {
                assert(is_prefix_path(paths_view(paths@)[i as int], paths_view(paths@)[k as int]));
                return false;
            }
            k += 1;
        }
        i += 1;
    }
    true
}

fn copy_path(path: &Vec<String>) -> (r: Vec<String>)
    ensures
        strings_view(r@) == strings_view(path@),
{
    let mut r: Vec<String> = Vec::new();
    let mut i: usize = 0;
    while i < path.len()
        invariant
            i <= path.len(),
            r.len() == i,
            forall|k: int| 0 <= k < i ==> (#[trigger] r[k])@ == path[k]@,
        decreases path.len() - i,
    {
        r.push(path[i].clone());
        i += 1;
    }
    assert(strings_view(r@) =~= strings_view(path@));
    r
}

fn copy_found(found: &Vec<Option<String>>, i: usize) -> (r: Option<String>)
    requires
        i < found.len(),
    ensures
        opt_string_view(r) == opt_strings_view(found@)[i as int],
{
    match &found[i] {
        Some(s) => Some(s.clone()),
        None => None,
    }
}

/// Finds the JSON texts at two paths of keys in one pass over the input.
/// The paths must lie apart; paths of which one is the other or a beginning
/// of it are refused before the input is read.
pub fn get_two_pointers(input: &str, p1: &Vec<String>, p2: &Vec<String>) -> (r: Result<
    (String, String),
    RegistryError,
>)
    ensures
        match r {
            Ok((a, b)) => two_raws(input@, strings_view(p1@), strings_view(p2@)) == Ok::<
                (Seq<char>, Seq<char>),
                RegistryErrorKind,
            >((a@, b@)),
            Err(e) => two_raws(input@, strings_view(p1@), strings_view(p2@)) == Err::<
                (Seq<char>, Seq<char>),
                RegistryErrorKind,
            >(e@),
        },
{
    let mut paths: Vec<Vec<String>> = Vec::new();
    paths.push(copy_path(p1));
    paths.push(copy_path(p2));
    assert(paths_view(paths@) =~= seq![strings_view(p1@), strings_view(p2@)]);
    if !are_apart(&paths) {
        return Err(RegistryError::OverlappingPaths);
    }
    match many_raw(input, &paths) {
        Err(error) => Err(RegistryError::Json(sonic_error_text(&error))),
        Ok(found) => {
            if found.len() == 2 {
                match (copy_found(&found, 0), copy_found(&found, 1)) {
                    (Some(a), Some(b)) => Ok((a, b)),
                    _ => Err(RegistryError::Missing),
                }
            } else {
                Err(RegistryError::Missing)
            }
        },
    }
}

/// Finds the JSON texts at three paths of keys in one pass over the input.
/// The paths must lie apart; paths of which one is another or a beginning
/// of another are refused before the input is read.
pub fn get_three_pointers(input: &str, p1: &Vec<String>, p2: &Vec<String>, p3: &Vec<String>) -> (r:
    Result<(String, String, String), RegistryError>)
    ensures
        match r {
            Ok((a, b, c)) => three_raws(
                input@,
                strings_view(p1@),
                strings_view(p2@),
                strings_view(p3@),
            ) == Ok::<(Seq<char>, Seq<char>, Seq<char>), RegistryErrorKind>((a@, b@, c@)),
            Err(e) => three_raws(
                input@,
                strings_view(p1@),
                strings_view(p2@),
                strings_view(p3@),
            ) == Err::<(Seq<char>, Seq<char>, Seq<char>), RegistryErrorKind>(e@),
        },
{
    let mut paths: Vec<Vec<String>> = Vec::new();
    paths.push(copy_path(p1));
    paths.push(copy_path(p2));
    paths.push(copy_path(p3));
    assert(paths_view(paths@) =~= seq![strings_view(p1@), strings_view(p2@), strings_view(p3@)]);
    if !are_apart(&paths) {
        return Err(RegistryError::OverlappingPaths);
    }
    match many_raw(input, &paths) {
        Err(error) => Err(RegistryError::Json(sonic_error_text(&error))),
        Ok(found) => {
            if found.len() == 3 {
                match (copy_found(&found, 0), copy_found(&found, 1), copy_found(&found, 2)) {
                    (Some(a), Some(b), Some(c)) => Ok((a, b, c)),
                    _ => Err(RegistryError::Missing),
                }
            } else {
                Err(RegistryError::Missing)
            }
        },
    }
}

/// What a lookup that may find nothing gives: the JSON text that is found,
/// nothing where nothing is there, and an error where the reader fails for
/// another reason.
pub open spec fn opt_raw_at(input: Seq<char>, path: Seq<Seq<char>>) -> Result<
    Option<Seq<char>>,
    RegistryErrorKind,
> {
    match lookup_at(input, path) {
        Lookup::Found(raw) => Ok(Some(raw)),
        Lookup::Missing => Ok(None),
        Lookup::Failed => Err(RegistryErrorKind::Json),
    }
}

/// What a lookup that may find nothing gives, for each outcome of the
/// reader: a value, nothing where the reader says that nothing is there,
/// and the reader's failure else.
pub fn found_or_nothing(found: Result<String, String>, not_found: bool) -> (r: Result<
    Option<String>,
    RegistryError,
>)
    ensures
        match found {
            Ok(raw) => r matches Ok(Some(s)) && s@ == raw@,
            Err(message) => if not_found {
                r matches Ok(None)
            } else {
                r matches Err(RegistryError::Json(m)) && m@ == message@
            },
        },
{
    match found {
        Ok(raw) => Ok(Some(raw)),
        Err(message) => if not_found {
            Ok(None)
        } else {
            Err(RegistryError::Json(message))
        },
    }
}

/// Finds the JSON text at a path of keys; a path that leads nowhere gives
/// nothing, and is no error.
pub fn get_opt_json(input: &str, p1: &Vec<String>) -> (r: Result<Option<String>, RegistryError>)
    ensures
        entry_result_view(r) == opt_raw_at(input@, strings_view(p1@)),
{
    match one_raw(input, p1) {
        Ok(raw) => found_or_nothing(Ok(raw), false),
        Err(error) => found_or_nothing(
            Err(sonic_error_text(&error)),
            error_is_not_found(&error),
        ),
    }
}

/// What an entry of the registry says of the flake `flake_id`: its revision
/// where the entry is an exact, indirect one for that flake, and nothing
/// where it is any other entry.
pub open spec fn entry_rev(entry: Seq<char>, flake_id: Seq<char>) -> Result<
    Option<Seq<char>>,
    RegistryErrorKind,
> {
    match two_raws(entry, seq!["exact"@], seq!["from"@, "type"@]) {
        Err(kind) => Err(kind),
        Ok((exact, type_)) => if bool_of_raw(exact) != Some(true) || str_of_raw(type_) != Some(
            "indirect"@,
        ) {
            Ok(None)
        } else {
            match (raw_at(entry, seq!["from"@, "id"@]), raw_at(entry, seq!["to"@, "rev"@])) {
                (Some(id), Some(rev)) => if str_of_raw(id) == Some(flake_id) {
                    match str_of_raw(rev) {
                        Some(rev) => Ok(Some(rev)),
                        None => Err(RegistryErrorKind::Invalid),
                    }
                } else {
                    Ok(None)
                },
                _ => Err(RegistryErrorKind::Json),
            }
        },
    }
}

/// The revision that the first fitting entry gives.
pub open spec fn entries_rev(entries: Seq<Option<Seq<char>>>, flake_id: Seq<char>) -> Result<
    Seq<char>,
    RegistryErrorKind,
>
    decreases entries.len(),
{
    if entries.len() == 0 {
        Err(RegistryErrorKind::NoSuchFlake)
    } else {
        match entries[0] {
            None => Err(RegistryErrorKind::Json),
            Some(entry) => match entry_rev(entry, flake_id) {
                Err(kind) => Err(kind),
                Ok(Some(rev)) => Ok(rev),
                Ok(None) => entries_rev(entries.drop_first(), flake_id),
            },
        }
    }
}

/// The revision that the registry pins the flake `flake_id` to. The
/// registry must be of version 2.
pub open spec fn registry_rev(contents: Seq<char>, flake_id: Seq<char>) -> Result<
    Seq<char>,
    RegistryErrorKind,
> {
    match two_raws(contents, seq!["flakes"@], seq!["version"@]) {
        Err(kind) => Err(kind),
        Ok((flakes, version)) => match u64_of_raw(version) {
            Some(number) => if number == 2 {
                entries_rev(items_of_raw(flakes), flake_id)
            } else {
                Err(RegistryErrorKind::UnsupportedVersion(number))
            },
            None => Err(RegistryErrorKind::Invalid),
        },
    }
}

/// The paths that the lookup in the registry goes by lie apart, so that
/// none of its passes is refused for its paths.
pub proof fn lemma_registry_paths_apart()
    ensures
        paths_apart(seq![seq!["flakes"@], seq!["version"@]]),
        paths_apart(seq![seq!["exact"@], seq!["from"@, "type"@]]),
{
    reveal_strlit("flakes");
    reveal_strlit("version");
    reveal_strlit("exact");
    reveal_strlit("from");
    let top = seq![seq!["flakes"@], seq!["version"@]];
    assert("flakes"@[0] != "version"@[0]);
    assert(top[0][0] != top[1][0]);
    assert(!is_prefix_path(top[0], top[1]));
    assert(!is_prefix_path(top[1], top[0]));
    let entry = seq![seq!["exact"@], seq!["from"@, "type"@]];
    assert("exact"@[0] != "from"@[0]);
    assert(entry[0][0] != entry[1][0]);
    assert(!is_prefix_path(entry[0], entry[1]));
    assert(!is_prefix_path(entry[1], entry[0]));
}

/// No entry is refused for the paths that it is read by.
pub proof fn lemma_entries_paths_apart(entries: Seq<Option<Seq<char>>>, flake_id: Seq<char>)
    ensures
        entries_rev(entries, flake_id) != Err::<Seq<char>, RegistryErrorKind>(
            RegistryErrorKind::OverlappingPaths,
        ),
    decreases entries.len(),
{
    lemma_registry_paths_apart();
    if entries.len() > 0 {
        lemma_entries_paths_apart(entries.drop_first(), flake_id);
    }
}

/// The lookup in the registry is never refused for the paths that it goes
/// by.
pub proof fn lemma_registry_lookup_paths_apart(contents: Seq<char>, flake_id: Seq<char>)
    ensures
        registry_rev(contents, flake_id) != Err::<Seq<char>, RegistryErrorKind>(
            RegistryErrorKind::OverlappingPaths,
        ),
{
    lemma_registry_paths_apart();
    match two_raws(contents, seq!["flakes"@], seq!["version"@]) {
        Ok((flakes, version)) => {
            lemma_entries_paths_apart(items_of_raw(flakes), flake_id);
        },
        Err(_) => {},
    }
}

fn path_of_one(key: &str) -> (r: Vec<String>)
    ensures
        strings_view(r@) == seq![key@],
{
    let mut r: Vec<String> = Vec::new();
    r.push(key.to_owned());
    assert(strings_view(r@) =~= seq![key@]);
    r
}

fn path_of_two(first: &str, second: &str) -> (r: Vec<String>)
    ensures
        strings_view(r@) == seq![first@, second@],
{
    let mut r: Vec<String> = Vec::new();
    r.push(first.to_owned());
    r.push(second.to_owned());
    assert(strings_view(r@) =~= seq![first@, second@]);
    r
}

/// The model of what a lookup in the registry gives.
pub open spec fn rev_result_view(r: Result<String, RegistryError>) -> Result<
    Seq<char>,
    RegistryErrorKind,
> {
    match r {
        Ok(rev) => Ok(rev@),
        Err(e) => Err(e@),
    }
}

/// The model of what an entry gives.
pub open spec fn entry_result_view(r: Result<Option<String>, RegistryError>) -> Result<
    Option<Seq<char>>,
    RegistryErrorKind,
> {
    match r {
        Ok(rev) => Ok(opt_string_view(rev)),
        Err(e) => Err(e@),
    }
}

/// What an entry of the registry says of the flake `flake_id`.
pub fn rev_of_entry(entry: &str, flake_id: &str) -> (r: Result<Option<String>, RegistryError>)
    ensures
        entry_result_view(r) == entry_rev(entry@, flake_id@),
{
    let (exact, type_) = match get_two_pointers(
        entry,
        &path_of_one("exact"),
        &path_of_two("from", "type"),
    ) {
        Ok(pair) => pair,
        Err(e) => {
            return Err(e);
        },
    };
    let is_exact = match raw_bool(exact.as_str()) {
        Some(b) => b,
        None => false,
    };
    let is_indirect = match raw_str(type_.as_str()) {
        Some(t) => str_eq(t.as_str(), "indirect"),
        None => false,
    };
    if !is_exact || !is_indirect {
        return Ok(None);
    }
    let id = match one_raw(entry, &path_of_two("from", "id")) {
        Ok(id) => id,
        Err(error) => {
            return Err(RegistryError::Json(sonic_error_text(&error)));
        },
    };
    let rev = match one_raw(entry, &path_of_two("to", "rev")) {
        Ok(rev) => rev,
        Err(error) => {
            return Err(RegistryError::Json(sonic_error_text(&error)));
        },
    };
    let is_wanted = match raw_str(id.as_str()) {
        Some(id) => str_eq(id.as_str(), flake_id),
        None => false,
    };
    if is_wanted {
        match raw_str(rev.as_str()) {
            Some(rev) => Ok(Some(rev)),
            None => Err(RegistryError::Invalid),
        }
    } else {
        Ok(None)
    }
}

/// Finds the revision that the registry with these contents pins the flake
/// `flake_id` to.
pub fn get_rev_from_registry(contents: &str, flake_id: &str) -> (r: Result<String, RegistryError>)
    ensures
        rev_result_view(r) == registry_rev(contents@, flake_id@),
{
    let (flakes, version) = match get_two_pointers(
        contents,
        &path_of_one("flakes"),
        &path_of_one("version"),
    ) {
        Ok(pair) => pair,
        Err(e) => {
            return Err(e);
        },
    };
    match raw_u64(version.as_str()) {
        Some(number) => {
            if number != 2 {
                return Err(RegistryError::UnsupportedVersion(number));
            }
        },
        None => {
            return Err(RegistryError::Invalid);
        },
    }
    let entries = array_items(flakes.as_str());
    let ghost all = items_of_raw(flakes@);
    assert(all.skip(0) =~= all);
    let mut i: usize = 0;
    while i < entries.len()
        invariant
            i <= entries.len(),
            opt_strings_view(entries@) == all,
            registry_rev(contents@, flake_id@) == entries_rev(all, flake_id@),
            entries_rev(all, flake_id@) == entries_rev(all.skip(i as int), flake_id@),
        decreases entries.len() - i,
    {
        let ghost rest = all.skip(i as int);
        assert(rest[0] == opt_string_view(entries[i as int]));
        assert(rest.drop_first() == all.skip(i + 1));
        match &entries[i] {
            None => {
                return Err(
                    RegistryError::Json(String::from_str("the array of flakes is no valid JSON")),
                );
            },
            Some(entry) => match rev_of_entry(entry.as_str(), flake_id) {
                Err(e) => {
                    return Err(e);
                },
                Ok(Some(rev)) => {
                    return Ok(rev);
                },
                Ok(None) => {},
            },
        }
        i += 1;
    }
    assert(all.skip(i as int).len() == 0);
    Err(RegistryError::NoSuchFlake)
}

} // verus!
