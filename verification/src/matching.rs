//! Deciding whether the locked state of a flake's input already satisfies
//! the target.

use vstd::prelude::*;
use vstd::string::*;
use crate::text::{opt_str_view, str_eq};
use crate::decode::{locked_of_json, lockfile_of_json, original_of_json, read_string, string_field};
use crate::json::{Json, JsonView};
use crate::lockfile::{
    Locked,
    LockedView,
    LockError,
    Lockfile,
    LockfileNode,
    LockfileNodeView,
    LockfileView,
    Original,
    OriginalView,
};

verus! {

/// What `nix flake metadata --json` prints, as far as it is used.
#[derive(Debug, PartialEq, Eq)]
pub struct NixFlakeMetadata {
    pub locked: Locked,
    pub locks: Lockfile,
    /// The declared reference, with an indirect one looked up.
    pub resolved: Original,
    pub resolved_url: String,
}

/// The model of a [`NixFlakeMetadata`].
pub struct NixFlakeMetadataView {
    pub locked: LockedView,
    pub locks: LockfileView,
    pub resolved: OriginalView,
    pub resolved_url: Seq<char>,
}

impl View for NixFlakeMetadata {
    type V = NixFlakeMetadataView;

    open spec fn view(&self) -> NixFlakeMetadataView {
        NixFlakeMetadataView {
            locked: self.locked@,
            locks: self.locks@,
            resolved: self.resolved@,
            resolved_url: self.resolved_url@,
        }
    }
}

/// The metadata that a JSON object describes: its members `locked`,
/// `locks`, `resolved` and `resolvedUrl`, all of which must be there.
pub open spec fn metadata_of_json(j: JsonView) -> Option<NixFlakeMetadataView> {
    match (j.get("locked"@), j.get("locks"@), j.get("resolved"@), string_field(j, "resolvedUrl"@)) {
        (Some(l), Some(k), Some(o), Some(resolved_url)) => match (
            locked_of_json(l),
            lockfile_of_json(k),
            original_of_json(o),
        ) {
            (Some(locked), Some(locks), Some(resolved)) => Some(
                NixFlakeMetadataView { locked, locks, resolved, resolved_url },
            ),
            _ => None,
        },
        _ => None,
    }
}

/// What reading the metadata from `bytes` gives, where it succeeds.
pub open spec fn metadata_of_bytes(bytes: Seq<u8>) -> Option<NixFlakeMetadataView> {
    match crate::json::parsed_document(bytes) {
        Some(j) => metadata_of_json(j),
        None => None,
    }
}

impl NixFlakeMetadata {
    /// Reads the metadata that a JSON value describes.
    pub fn from_json(j: &Json) -> (r: Result<NixFlakeMetadata, LockError>)
        ensures
            match r {
                Ok(metadata) => metadata_of_json(j@) == Some(metadata@),
                Err(e) => e is Format && metadata_of_json(j@) is None,
            },
    {
        match (j.get("locked"), j.get("locks"), j.get("resolved"), read_string(j, "resolvedUrl")) {
            (Some(l), Some(k), Some(o), Some(resolved_url)) => match (
                Locked::from_json(l),
                Lockfile::from_json(k),
                Original::from_json(o),
            ) {
                (Some(locked), Ok(locks), Some(resolved)) => Ok(
                    NixFlakeMetadata { locked, locks, resolved, resolved_url },
                ),
                _ => Err(LockError::Format(String::from_str("Failed to parse output"))),
            },
            _ => Err(LockError::Format(String::from_str("Failed to parse output"))),
        }
    }

    /// Reads the metadata from the bytes that the command printed.
    pub fn decode(bytes: &[u8]) -> (r: Result<NixFlakeMetadata, LockError>)
        ensures
            match r {
                Ok(metadata) => metadata_of_bytes(bytes@) == Some(metadata@),
                Err(e) => e is Format && metadata_of_bytes(bytes@) is None,
            },
    {
        match crate::json::parse_json(bytes) {
            Ok(j) => NixFlakeMetadata::from_json(&j),
            Err(message) => Err(LockError::Format(message)),
        }
    }
}

/// What the flakes are compared with.
#[derive(Debug, PartialEq, Eq)]
pub enum MatchTarget {
    /// The flake that a flake reference leads to.
    FlakeMetadata(NixFlakeMetadata),
    /// An input of the flake that a flake reference leads to.
    FlakeInput { input: LockfileNode, flake_ref_url: String },
}

/// The model of a [`MatchTarget`]: the same three things whichever way the
/// target was found.
pub struct MatchTargetView {
    pub locked: LockedView,
    pub original: OriginalView,
    pub flake_ref_url: Seq<char>,
}

impl View for MatchTarget {
    type V = MatchTargetView;

    open spec fn view(&self) -> MatchTargetView {
        match *self {
            MatchTarget::FlakeMetadata(metadata) => MatchTargetView {
                locked: metadata.locked@,
                original: metadata.resolved@,
                flake_ref_url: metadata.resolved_url@,
            },
            MatchTarget::FlakeInput { input, flake_ref_url } => MatchTargetView {
                locked: input.locked@,
                original: input.original.inner@,
                flake_ref_url: flake_ref_url@,
            },
        }
    }
}

/// Whether `ours` is there and equal to `theirs`.
pub open spec fn present_and_equal(ours: Option<Seq<char>>, theirs: Option<Seq<char>>) -> bool {
    ours is Some && ours == theirs
}

/// Whether `ours` is there and equal to `theirs`.
pub fn is_present_and_equal(ours: Option<&str>, theirs: Option<&str>) -> (r: bool)
    ensures
        r == present_and_equal(opt_str_view(ours), opt_str_view(theirs)),
{
    match (ours, theirs) {
        (Some(a), Some(b)) => str_eq(a, b),
        _ => false,
    }
}

impl MatchTargetView {
    /// Whether the node was declared with a branch or tag, and with that of
    /// the target.
    pub open spec fn matches_ref(self, node: LockfileNodeView) -> bool {
        present_and_equal(node.original.inner.ref_(), self.original.ref_())
    }

    /// Whether the node is locked to a revision, and to that of the target.
    pub open spec fn matches_rev(self, node: LockfileNodeView) -> bool {
        present_and_equal(node.locked.rev(), self.locked.rev())
    }

    /// Whether the node is locked to a URL that is no Git repository's, and
    /// to that of the target.
    pub open spec fn matches_url(self, node: LockfileNodeView) -> bool {
        present_and_equal(node.locked.url_no_git(), self.locked.url_no_git())
    }
}

impl MatchTarget {
    /// The locked state of the target.
    pub fn locked(&self) -> (r: &Locked)
        ensures
            r@ == self@.locked,
    {
        match self {
            MatchTarget::FlakeMetadata(metadata) => &metadata.locked,
            MatchTarget::FlakeInput { input, .. } => &input.locked,
        }
    }

    /// The reference that the target was declared with.
    pub fn original(&self) -> (r: &Original)
        ensures
            r@ == self@.original,
    {
        match self {
            MatchTarget::FlakeMetadata(metadata) => &metadata.resolved,
            MatchTarget::FlakeInput { input, .. } => &input.original.inner,
        }
    }

    /// The URL-like flake reference of the target.
    pub fn flake_ref_url(&self) -> (r: &str)
        ensures
            r@ == self@.flake_ref_url,
    {
        match self {
            MatchTarget::FlakeMetadata(metadata) => metadata.resolved_url.as_str(),
            MatchTarget::FlakeInput { flake_ref_url, .. } => flake_ref_url.as_str(),
        }
    }

    /// Whether the node was declared with the branch or tag of the target.
    pub fn matches_ref(&self, lockfile_node: &LockfileNode) -> (r: bool)
        ensures
            r == self@.matches_ref(lockfile_node@),
    {
        is_present_and_equal(lockfile_node.original.inner.ref_(), self.original().ref_())
    }

    /// Whether the node is locked to the revision of the target.
    pub fn matches_rev(&self, lockfile_node: &LockfileNode) -> (r: bool)
        ensures
            r == self@.matches_rev(lockfile_node@),
    {
        is_present_and_equal(lockfile_node.locked.rev(), self.locked().rev())
    }

    /// Whether the node is locked to the URL of the target.
    pub fn matches_url(&self, lockfile_node: &LockfileNode) -> (r: bool)
        ensures
            r == self@.matches_url(lockfile_node@),
    {
        is_present_and_equal(lockfile_node.locked.url_no_git(), self.locked().url_no_git())
    }
}

/// A point in time: `secs` seconds and `nanos` nanoseconds after the
/// beginning of 1970. Nanoseconds that make a second or more count in full,
/// as so many nanoseconds more.
#[derive(Clone, Copy, Debug, PartialEq, Eq, Structural)]
pub struct Timestamp {
    pub secs: i64,
    pub nanos: u32,
}

/// A length of time: `secs` seconds and `nanos` nanoseconds. Nanoseconds
/// that make a second or more count in full, as so many nanoseconds more.
#[derive(Clone, Copy, Debug, PartialEq, Eq, Structural)]
pub struct Window {
    pub secs: u64,
    pub nanos: u32,
}

impl Timestamp {
    /// The nanoseconds stay below one second.
    pub open spec fn is_valid(self) -> bool {
        self.nanos < 1_000_000_000
    }
}

impl Window {
    /// The nanoseconds stay below one second.
    pub open spec fn is_valid(self) -> bool {
        self.nanos < 1_000_000_000
    }
}

/// Why a node could not be compared with the target.
#[derive(Clone, Copy, Debug, PartialEq, Eq, Structural)]
pub enum MatchError {
    /// The time of the last modification is beyond the points in time that
    /// can be represented.
    InvalidLastModified,
}

/// Whether a time in seconds since 1970 is a point in time that can be
/// represented: the seconds are kept as a signed 64-bit number.
pub open spec fn is_representable(last_modified: u64) -> bool {
    last_modified <= i64::MAX
}

/// The nanoseconds from `last_modified` until `now`.
pub open spec fn nanos_since(last_modified: u64, now: Timestamp) -> int {
    (now.secs - last_modified) * 1_000_000_000 + now.nanos
}

/// The nanoseconds of a length of time.
pub open spec fn window_nanos(window: Window) -> int {
    window.secs * 1_000_000_000 + window.nanos
}

/// Whether less than `window` has passed from `last_modified` until `now`.
pub open spec fn is_fresh(last_modified: u64, now: Timestamp, window: Window) -> bool {
    nanos_since(last_modified, now) < window_nanos(window)
}

/// Whether less than `window` has passed since the time `last_modified`, in
/// seconds since 1970. A time that cannot be represented is an error. The
/// times are compared by their nanoseconds, whatever part of them stands in
/// `secs` and whatever part in `nanos`.
pub fn timestamp_matches(last_modified: u64, now: Timestamp, window: Window) -> (r: Result<
    bool,
    MatchError,
>)
    ensures
        r is Ok <==> is_representable(last_modified),
        r matches Ok(fresh) ==> fresh == is_fresh(last_modified, now, window),
{
    if last_modified > 0x7fff_ffff_ffff_ffffu64 {
        return Err(MatchError::InvalidLastModified);
    }
    let elapsed: i128 = (now.secs as i128 - last_modified as i128) * 1_000_000_000i128
        + now.nanos as i128;
    let limit: i128 = window.secs as i128 * 1_000_000_000i128 + window.nanos as i128;
    Ok(elapsed < limit)
}

/// How a node compares with the target, axis by axis.
#[derive(Clone, Copy, Debug, PartialEq, Eq, Structural)]
pub struct MatchVerdict {
    /// The declared branch or tag is that of the target.
    pub ref_ok: bool,
    /// The locked revision is that of the target.
    pub rev_ok: bool,
    /// The locked URL is that of the target.
    pub url_ok: bool,
    /// The node was last modified within the window.
    pub ref_fresh_ok: bool,
    /// The node already satisfies the target.
    pub overall: bool,
}

/// Whether the node's time of last modification is there and within the
/// window.
pub open spec fn node_is_fresh(node: LockfileNodeView, now: Timestamp, window: Window) -> bool {
    match node.locked.last_modified() {
        Some(last_modified) => is_fresh(last_modified, now, window),
        None => false,
    }
}

/// Whether the node's time of last modification, where it has one, can be
/// represented.
pub open spec fn node_is_comparable(node: LockfileNodeView) -> bool {
    match node.locked.last_modified() {
        Some(last_modified) => is_representable(last_modified),
        None => true,
    }
}

/// The verdict on a node. A branch or tag can point anywhere, so its
/// equality counts only together with a recent modification; the equality of
/// the revision or of the URL is enough by itself.
pub open spec fn verdict_of(
    node: LockfileNodeView,
    target: MatchTargetView,
    now: Timestamp,
    window: Window,
) -> MatchVerdict {
    let ref_ok = target.matches_ref(node);
    let rev_ok = target.matches_rev(node);
    let url_ok = target.matches_url(node);
    let ref_fresh_ok = node_is_fresh(node, now, window);
    MatchVerdict {
        ref_ok,
        rev_ok,
        url_ok,
        ref_fresh_ok,
        overall: (ref_ok && ref_fresh_ok) || rev_ok || url_ok,
    }
}

/// Compares a node with the target. A time of last modification that cannot
/// be represented is an error, whatever the other axes say.
pub fn matches(candidate: &LockfileNode, target: &MatchTarget, now: Timestamp, window: Window) -> (r:
    Result<MatchVerdict, MatchError>)
    ensures
        r is Ok <==> node_is_comparable(candidate@),
        r matches Ok(verdict) ==> verdict == verdict_of(candidate@, target@, now, window),
        r matches Ok(verdict) ==> verdict.overall == ((verdict.ref_ok && verdict.ref_fresh_ok)
            || verdict.rev_ok || verdict.url_ok),
{
    let ref_fresh_ok = match candidate.locked.last_modified() {
        Some(last_modified) => match timestamp_matches(last_modified, now, window) {
            Ok(fresh) => fresh,
            Err(e) => {
                return Err(e);
            },
        },
        None => false,
    };
    let ref_ok = target.matches_ref(candidate);
    let rev_ok = target.matches_rev(candidate);
    let url_ok = target.matches_url(candidate);
    Ok(
        MatchVerdict {
            ref_ok,
            rev_ok,
            url_ok,
            ref_fresh_ok,
            overall: (ref_ok && ref_fresh_ok) || rev_ok || url_ok,
        },
    )
}

/// A node that is compared with a target made of itself satisfies it,
/// where it has something to compare by: a revision, a URL that is no Git
/// repository's, or a branch or tag together with a time of last
/// modification within the window.
pub proof fn lemma_matches_itself(
    node: LockfileNodeView,
    flake_ref_url: Seq<char>,
    now: Timestamp,
    window: Window,
)
    requires
        node.locked.rev() is Some || node.locked.url_no_git() is Some || (
        node.original.inner.ref_() is Some && node_is_fresh(node, now, window)),
    ensures
        verdict_of(
            node,
            MatchTargetView { locked: node.locked, original: node.original.inner, flake_ref_url },
            now,
            window,
        ).overall,
{
}

/// One second inside the window is fresh, one second outside it is not.
pub proof fn lemma_freshness_boundary(last_modified: u64, now: Timestamp, window: Window)
    requires
        now.is_valid(),
        window.is_valid(),
    ensures
        last_modified == now.secs - window.secs + 1 ==> is_fresh(last_modified, now, window),
        last_modified == now.secs - window.secs - 1 ==> !is_fresh(last_modified, now, window),
{
    if last_modified == now.secs - window.secs - 1 {
        assert(nanos_since(last_modified, now) == (window.secs + 1) * 1_000_000_000 + now.nanos);
    }
    if last_modified == now.secs - window.secs + 1 {
        assert(nanos_since(last_modified, now) == (window.secs - 1) * 1_000_000_000 + now.nanos);
    }
}

} // verus!
