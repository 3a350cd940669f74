//! The nodes of a lock document: the locked state of an input and the
//! reference it was declared with.

use vstd::prelude::*;
use vstd::string::*;
use crate::text::{opt_as_str, opt_str_view, opt_string_view};
use crate::json::{JsonMember, JsonView, keys_distinct, members_view};

verus! {

/// A Git hosting service with a flake reference scheme of its own.
#[derive(Clone, Copy, Debug, PartialEq, Eq, Structural)]
pub enum GitServiceType {
    GitHub,
    GitLab,
    Sourcehut,
}

/// The version that an input is locked to.
#[derive(Debug, PartialEq, Eq)]
#[allow(inconsistent_fields)]
pub enum Locked {
    Path { path: String, rev: Option<String>, last_modified: u64 },
    Tarball { url: String, rev: Option<String>, last_modified: Option<u64> },
    Git {
        last_modified: Option<u64>,
        ref_: String,
        rev: String,
        shallow: Option<bool>,
        url: String,
    },
    GitService {
        type_: GitServiceType,
        owner: String,
        repo: String,
        rev: String,
        last_modified: Option<u64>,
        host: Option<String>,
    },
    /// Any other kind of source.
    Other { type_: String, rev: Option<String>, url: Option<String>, last_modified: Option<u64> },
}

/// The model of a [`Locked`].
#[allow(inconsistent_fields)]
pub enum LockedView {
    Path { path: Seq<char>, rev: Option<Seq<char>>, last_modified: u64 },
    Tarball { url: Seq<char>, rev: Option<Seq<char>>, last_modified: Option<u64> },
    Git {
        last_modified: Option<u64>,
        ref_: Seq<char>,
        rev: Seq<char>,
        shallow: Option<bool>,
        url: Seq<char>,
    },
    GitService {
        type_: GitServiceType,
        owner: Seq<char>,
        repo: Seq<char>,
        rev: Seq<char>,
        last_modified: Option<u64>,
        host: Option<Seq<char>>,
    },
    Other {
        type_: Seq<char>,
        rev: Option<Seq<char>>,
        url: Option<Seq<char>>,
        last_modified: Option<u64>,
    },
}

impl View for Locked {
    type V = LockedView;

    open spec fn view(&self) -> LockedView {
        match *self {
            Locked::Path { path, rev, last_modified } => LockedView::Path {
                path: path@,
                rev: opt_string_view(rev),
                last_modified,
            },
            Locked::Tarball { url, rev, last_modified } => LockedView::Tarball {
                url: url@,
                rev: opt_string_view(rev),
                last_modified,
            },
            Locked::Git { last_modified, ref_, rev, shallow, url } => LockedView::Git {
                last_modified,
                ref_: ref_@,
                rev: rev@,
                shallow,
                url: url@,
            },
            Locked::GitService {
                type_,
                owner,
                repo,
                rev,
                last_modified,
                host,
            } => LockedView::GitService {
                type_,
                owner: owner@,
                repo: repo@,
                rev: rev@,
                last_modified,
                host: opt_string_view(host),
            },
            Locked::Other { type_, rev, url, last_modified } => LockedView::Other {
                type_: type_@,
                rev: opt_string_view(rev),
                url: opt_string_view(url),
                last_modified,
            },
        }
    }
}

impl LockedView {
    /// The locked revision: always there for `git` and the Git services.
    pub open spec fn rev(self) -> Option<Seq<char>> {
        match self {
            LockedView::Path { rev, .. } => rev,
            LockedView::Tarball { rev, .. } => rev,
            LockedView::Other { rev, .. } => rev,
            LockedView::Git { rev, .. } => Some(rev),
            LockedView::GitService { rev, .. } => Some(rev),
        }
    }

    /// The URL of a tarball. The URL of a Git repository is no key to
    /// compare by, so every other kind has none.
    pub open spec fn url_no_git(self) -> Option<Seq<char>> {
        match self {
            LockedView::Tarball { url, .. } => Some(url),
            _ => None,
        }
    }

    /// The time of the last modification, in seconds since 1970.
    pub open spec fn last_modified(self) -> Option<u64> {
        match self {
            LockedView::Path { last_modified, .. } => Some(last_modified),
            LockedView::Tarball { last_modified, .. } => last_modified,
            LockedView::Git { last_modified, .. } => last_modified,
            LockedView::GitService { last_modified, .. } => last_modified,
            LockedView::Other { last_modified, .. } => last_modified,
        }
    }
}

impl Locked {
    /// The locked revision.
    pub fn rev(&self) -> (r: Option<&str>)
        ensures
            opt_str_view(r) == self@.rev(),
            self is Git || self is GitService ==> r is Some,
    {
        match self {
            Locked::Path { rev, .. } => opt_as_str(rev),
            Locked::Tarball { rev, .. } => opt_as_str(rev),
            Locked::Other { rev, .. } => opt_as_str(rev),
            Locked::GitService { rev, .. } => Some(rev.as_str()),
            Locked::Git { rev, .. } => Some(rev.as_str()),
        }
    }

    /// The URL, unless it is that of a Git repository.
    pub fn url_no_git(&self) -> (r: Option<&str>)
        ensures
            opt_str_view(r) == self@.url_no_git(),
            r is Some <==> self is Tarball,
    {
        match self {
            Locked::Tarball { url, .. } => Some(url.as_str()),
            _ => None,
        }
    }

    /// The time of the last modification, in seconds since 1970.
    pub fn last_modified(&self) -> (r: Option<u64>)
        ensures
            r == self@.last_modified(),
            self is Path ==> r is Some,
    {
        match self {
            Locked::Path { last_modified, .. } => Some(*last_modified),
            Locked::Tarball { last_modified, .. } => *last_modified,
            Locked::Git { last_modified, .. } => *last_modified,
            Locked::GitService { last_modified, .. } => *last_modified,
            Locked::Other { last_modified, .. } => *last_modified,
        }
    }
}

/// The reference that an input was declared with.
#[derive(Debug, PartialEq, Eq)]
#[allow(inconsistent_fields)]
pub enum Original {
    /// A lookup in the flake registry.
    Indirect { id: String, rev: Option<String>, ref_: Option<String> },
    Path,
    Tarball {  },
    File,
    Git { ref_: Option<String> },
    Mercurial,
    GitService { type_: GitServiceType, ref_: Option<String> },
    /// Any other kind of reference.
    Other { type_: String },
}

/// The model of an [`Original`].
#[allow(inconsistent_fields)]
pub enum OriginalView {
    Indirect { id: Seq<char>, rev: Option<Seq<char>>, ref_: Option<Seq<char>> },
    Path,
    Tarball {  },
    File,
    Git { ref_: Option<Seq<char>> },
    Mercurial,
    GitService { type_: GitServiceType, ref_: Option<Seq<char>> },
    Other { type_: Seq<char> },
}

impl View for Original {
    type V = OriginalView;

    open spec fn view(&self) -> OriginalView {
        match *self {
            Original::Indirect { id, rev, ref_ } => OriginalView::Indirect {
                id: id@,
                rev: opt_string_view(rev),
                ref_: opt_string_view(ref_),
            },
            Original::Path => OriginalView::Path,
            Original::Tarball {  } => OriginalView::Tarball {  },
            Original::File => OriginalView::File,
            Original::Git { ref_ } => OriginalView::Git { ref_: opt_string_view(ref_) },
            Original::Mercurial => OriginalView::Mercurial,
            Original::GitService { type_, ref_ } => OriginalView::GitService {
                type_,
                ref_: opt_string_view(ref_),
            },
            Original::Other { type_ } => OriginalView::Other { type_: type_@ },
        }
    }
}

impl OriginalView {
    /// The branch or tag that was asked for: only `indirect`, `git` and the
    /// Git services ever have one.
    pub open spec fn ref_(self) -> Option<Seq<char>> {
        match self {
            OriginalView::Indirect { ref_, .. } => ref_,
            OriginalView::GitService { ref_, .. } => ref_,
            OriginalView::Git { ref_ } => ref_,
            _ => None,
        }
    }
}

impl Original {
    /// The branch or tag that was asked for.
    pub fn ref_(&self) -> (r: Option<&str>)
        ensures
            opt_str_view(r) == self@.ref_(),
            r is Some ==> self is Indirect || self is Git || self is GitService,
    {
        match self {
            Original::Indirect { ref_, .. } => opt_as_str(ref_),
            Original::GitService { ref_, .. } => opt_as_str(ref_),
            Original::Git { ref_ } => opt_as_str(ref_),
            _ => None,
        }
    }
}

/// The version number `V` of a document format.
#[derive(Debug, PartialEq, Eq)]
pub struct Version<const V: u8>;

impl<const V: u8> Version<V> {
    /// Accepts the number `V` and no other.
    pub fn from_number(number: u64) -> (r: Option<Self>)
        ensures
            r is Some <==> number == V,
    {
        if number == V as u64 {
            Some(Version)
        } else {
            None
        }
    }

    /// The number `V`.
    pub fn number(&self) -> (n: u8)
        ensures
            n == V,
    {
        V
    }
}

/// A declared reference together with the members of its JSON object that
/// its kind does not know, kept so that they can be written out again. They
/// are a mapping from keys to values, kept in a vector in which no key
/// occurs twice.
#[derive(Debug, PartialEq, Eq)]
pub struct OriginalExtra {
    pub inner: Original,
    pub extra: Vec<JsonMember>,
}

/// The model of an [`OriginalExtra`].
pub struct OriginalExtraView {
    pub inner: OriginalView,
    pub extra: Seq<(Seq<char>, JsonView)>,
}

impl View for OriginalExtra {
    type V = OriginalExtraView;

    open spec fn view(&self) -> OriginalExtraView {
        OriginalExtraView { inner: self.inner@, extra: members_view(self.extra@) }
    }
}

/// The one node of a lock document that is read in full.
#[derive(Debug, PartialEq, Eq)]
pub struct LockfileNode {
    pub locked: Locked,
    pub original: OriginalExtra,
}

/// The model of a [`LockfileNode`].
pub struct LockfileNodeView {
    pub locked: LockedView,
    pub original: OriginalExtraView,
}

impl View for LockfileNode {
    type V = LockfileNodeView;

    open spec fn view(&self) -> LockfileNodeView {
        LockfileNodeView { locked: self.locked@, original: self.original@ }
    }
}

/// A lock document. Its nodes stay as they were read: only the node that is
/// asked for is ever read in full. The nodes are a mapping from names to
/// nodes, kept in a vector in which no name occurs twice.
#[derive(Debug, PartialEq, Eq)]
pub enum Lockfile {
    V7 { version: Version<7>, root_id: String, raw_nodes: Vec<JsonMember> },
}

/// The model of a [`Lockfile`].
pub struct LockfileView {
    pub root_id: Seq<char>,
    pub raw_nodes: Seq<(Seq<char>, JsonView)>,
}

impl LockfileView {
    /// No name is that of two nodes.
    pub open spec fn is_valid(self) -> bool {
        keys_distinct(self.raw_nodes)
    }
}

impl View for Lockfile {
    type V = LockfileView;

    open spec fn view(&self) -> LockfileView {
        match *self {
            Lockfile::V7 { version, root_id, raw_nodes } => LockfileView {
                root_id: root_id@,
                raw_nodes: members_view(raw_nodes@),
            },
        }
    }
}

/// Why a lock document or one of its nodes could not be read.
#[derive(Debug, PartialEq, Eq)]
pub enum LockError {
    /// The document is no JSON, or not of the shape or version that is
    /// read here. The message says which.
    Format(String),
    /// A node or a key that the lookup goes through is not there.
    MissingData,
}

impl LockError {
    /// The message of the error.
    pub fn message(&self) -> (r: String)
        ensures
            r@ == match *self {
                LockError::Format(m) => m@,
                LockError::MissingData => "could not locate target node in lockfile"@,
            },
    {
        match self {
            LockError::Format(m) => m.clone(),
            LockError::MissingData => String::from_str("could not locate target node in lockfile"),
        }
    }
}

} // verus!
