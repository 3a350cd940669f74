//! Reading typed nodes out of JSON values.

use vstd::prelude::*;
use vstd::string::*;
use crate::text::{opt_opt_string_view, opt_string_view, str_eq};
use crate::json::{
    clone_json,
    find_member,
    Json,
    JsonMember,
    JsonView,
    keys_distinct,
    lemma_members_view,
    lemma_unique_members,
    member_value,
    members_view,
    opt_json_view,
    parse_json,
    parsed_document,
    unique_members,
    unique_members_of,
};
use crate::lockfile::{
    GitServiceType,
    Locked,
    LockedView,
    LockError,
    Lockfile,
    LockfileNode,
    LockfileNodeView,
    LockfileView,
    Original,
    OriginalExtra,
    OriginalExtraView,
    OriginalView,
    Version,
};

verus! {

/// A member that must be there and be a string.
pub open spec fn string_field(j: JsonView, key: Seq<char>) -> Option<Seq<char>> {
    match j.get(key) {
        Some(v) => v.as_str(),
        None => None,
    }
}

/// A member that may be missing or null, and is a string otherwise. The
/// outer `None` stands for a member of another kind.
pub open spec fn opt_string_field(j: JsonView, key: Seq<char>) -> Option<Option<Seq<char>>> {
    match j.get(key) {
        None => Some(None),
        Some(JsonView::Null) => Some(None),
        Some(v) => match v.as_str() {
            Some(s) => Some(Some(s)),
            None => None,
        },
    }
}

/// A member that must be there and be an unsigned 64-bit integer.
pub open spec fn u64_field(j: JsonView, key: Seq<char>) -> Option<u64> {
    match j.get(key) {
        Some(v) => v.as_u64(),
        None => None,
    }
}

/// A member that may be missing or null, and is an unsigned 64-bit integer
/// otherwise.
pub open spec fn opt_u64_field(j: JsonView, key: Seq<char>) -> Option<Option<u64>> {
    match j.get(key) {
        None => Some(None),
        Some(JsonView::Null) => Some(None),
        Some(v) => match v.as_u64() {
            Some(n) => Some(Some(n)),
            None => None,
        },
    }
}

/// A member that may be missing or null, and is a boolean otherwise.
pub open spec fn opt_bool_field(j: JsonView, key: Seq<char>) -> Option<Option<bool>> {
    match j.get(key) {
        None => Some(None),
        Some(JsonView::Null) => Some(None),
        Some(v) => match v.as_bool() {
            Some(b) => Some(Some(b)),
            None => None,
        },
    }
}

/// Reads a member that must be a string.
pub fn read_string(j: &Json, key: &str) -> (r: Option<String>)
    ensures
        opt_string_view(r) == string_field(j@, key@),
{
    match j.get(key) {
        Some(v) => match v.as_str() {
            Some(s) => Some(s.to_owned()),
            None => None,
        },
        None => None,
    }
}

/// Reads a member that is a string where it is there and not null.
pub fn read_opt_string(j: &Json, key: &str) -> (r: Option<Option<String>>)
    ensures
        opt_opt_string_view(r) == opt_string_field(j@, key@),
{
    match j.get(key) {
        None => Some(None),
        Some(Json::Null) => Some(None),
        Some(v) => match v.as_str() {
            Some(s) => Some(Some(s.to_owned())),
            None => None,
        },
    }
}

/// Reads a member that must be an unsigned 64-bit integer.
pub fn read_u64(j: &Json, key: &str) -> (r: Option<u64>)
    ensures
        r == u64_field(j@, key@),
{
    match j.get(key) {
        Some(v) => v.as_u64(),
        None => None,
    }
}

/// Reads a member that is an unsigned 64-bit integer where it is there and
/// not null.
pub fn read_opt_u64(j: &Json, key: &str) -> (r: Option<Option<u64>>)
    ensures
        r == opt_u64_field(j@, key@),
{
    match j.get(key) {
        None => Some(None),
        Some(Json::Null) => Some(None),
        Some(v) => match v.as_u64() {
            Some(n) => Some(Some(n)),
            None => None,
        },
    }
}

/// Reads a member that is a boolean where it is there and not null.
pub fn read_opt_bool(j: &Json, key: &str) -> (r: Option<Option<bool>>)
    ensures
        r == opt_bool_field(j@, key@),
{
    match j.get(key) {
        None => Some(None),
        Some(Json::Null) => Some(None),
        Some(v) => match v.as_bool() {
            Some(b) => Some(Some(b)),
            None => None,
        },
    }
}

/// The Git hosting service that a `type` names.
pub open spec fn service_type_named(name: Seq<char>) -> Option<GitServiceType> {
    if name == "github"@ {
        Some(GitServiceType::GitHub)
    } else if name == "gitlab"@ {
        Some(GitServiceType::GitLab)
    } else if name == "sourcehut"@ {
        Some(GitServiceType::Sourcehut)
    } else {
        None
    }
}

/// The name that a `type` member gives a Git hosting service.
pub open spec fn service_type_name(service: GitServiceType) -> Seq<char> {
    match service {
        GitServiceType::GitHub => "github"@,
        GitServiceType::GitLab => "gitlab"@,
        GitServiceType::Sourcehut => "sourcehut"@,
    }
}

impl GitServiceType {
    /// The service that `name` names.
    pub fn from_name(name: &str) -> (r: Option<GitServiceType>)
        ensures
            r == service_type_named(name@),
    {
        if str_eq(name, "github") {
            Some(GitServiceType::GitHub)
        } else if str_eq(name, "gitlab") {
            Some(GitServiceType::GitLab)
        } else if str_eq(name, "sourcehut") {
            Some(GitServiceType::Sourcehut)
        } else {
            None
        }
    }

    /// The name of the service.
    pub fn name(self) -> (r: &'static str)
        ensures
            r@ == service_type_name(self),
    {
        match self {
            GitServiceType::GitHub => "github",
            GitServiceType::GitLab => "gitlab",
            GitServiceType::Sourcehut => "sourcehut",
        }
    }
}

/// The members of a locked `path`.
pub open spec fn path_locked(j: JsonView) -> Option<LockedView> {
    match (
        string_field(j, "path"@),
        opt_string_field(j, "rev"@),
        u64_field(j, "lastModified"@),
    ) {
        (Some(path), Some(rev), Some(last_modified)) => Some(
            LockedView::Path { path, rev, last_modified },
        ),
        _ => None,
    }
}

/// The members of a locked `tarball`.
pub open spec fn tarball_locked(j: JsonView) -> Option<LockedView> {
    match (
        string_field(j, "url"@),
        opt_string_field(j, "rev"@),
        opt_u64_field(j, "lastModified"@),
    ) {
        (Some(url), Some(rev), Some(last_modified)) => Some(
            LockedView::Tarball { url, rev, last_modified },
        ),
        _ => None,
    }
}

/// The members of a locked `git`.
pub open spec fn git_locked(j: JsonView) -> Option<LockedView> {
    match (
        opt_u64_field(j, "lastModified"@),
        string_field(j, "ref"@),
        string_field(j, "rev"@),
        opt_bool_field(j, "shallow"@),
        string_field(j, "url"@),
    ) {
        (Some(last_modified), Some(ref_), Some(rev), Some(shallow), Some(url)) => Some(
            LockedView::Git { last_modified, ref_, rev, shallow, url },
        ),
        _ => None,
    }
}

/// The locked state that the `type` member selects by name.
pub open spec fn tagged_locked(j: JsonView) -> Option<LockedView> {
    match string_field(j, "type"@) {
        Some(t) => if t == "path"@ {
            path_locked(j)
        } else if t == "tarball"@ {
            tarball_locked(j)
        } else if t == "git"@ {
            git_locked(j)
        } else {
            None
        },
        None => None,
    }
}

/// The members of a repository locked on a Git hosting service.
pub open spec fn service_locked(j: JsonView) -> Option<LockedView> {
    match string_field(j, "type"@) {
        Some(t) => match (
            service_type_named(t),
            string_field(j, "owner"@),
            string_field(j, "repo"@),
            string_field(j, "rev"@),
            opt_u64_field(j, "lastModified"@),
            opt_string_field(j, "host"@),
        ) {
            (Some(type_), Some(owner), Some(repo), Some(rev), Some(last_modified), Some(host)) => Some(
                LockedView::GitService { type_, owner, repo, rev, last_modified, host },
            ),
            _ => None,
        },
        None => None,
    }
}

/// The members that any locked source may have.
pub open spec fn other_locked(j: JsonView) -> Option<LockedView> {
    match (
        string_field(j, "type"@),
        opt_string_field(j, "rev"@),
        opt_string_field(j, "url"@),
        opt_u64_field(j, "lastModified"@),
    ) {
        (Some(type_), Some(rev), Some(url), Some(last_modified)) => Some(
            LockedView::Other { type_, rev, url, last_modified },
        ),
        _ => None,
    }
}

/// The locked state that a JSON object describes: the kind that its `type`
/// names, where its members fit that kind; else a Git hosting service, where
/// they fit one; else any source with a `type`.
pub open spec fn locked_of_json(j: JsonView) -> Option<LockedView> {
    match tagged_locked(j) {
        Some(l) => Some(l),
        None => match service_locked(j) {
            Some(l) => Some(l),
            None => other_locked(j),
        },
    }
}

/// The model of an optional [`Locked`].
pub open spec fn opt_locked_view(l: Option<Locked>) -> Option<LockedView> {
    match l {
        Some(l) => Some(l@),
        None => None,
    }
}

fn decode_path_locked(j: &Json) -> (r: Option<Locked>)
    ensures
        opt_locked_view(r) == path_locked(j@),
{
    match (read_string(j, "path"), read_opt_string(j, "rev"), read_u64(j, "lastModified")) {
        (Some(path), Some(rev), Some(last_modified)) => Some(
            Locked::Path { path, rev, last_modified },
        ),
        _ => None,
    }
}

fn decode_tarball_locked(j: &Json) -> (r: Option<Locked>)
    ensures
        opt_locked_view(r) == tarball_locked(j@),
{
    match (read_string(j, "url"), read_opt_string(j, "rev"), read_opt_u64(j, "lastModified")) {
        (Some(url), Some(rev), Some(last_modified)) => Some(
            Locked::Tarball { url, rev, last_modified },
        ),
        _ => None,
    }
}

fn decode_git_locked(j: &Json) -> (r: Option<Locked>)
    ensures
        opt_locked_view(r) == git_locked(j@),
{
    match (
        read_opt_u64(j, "lastModified"),
        read_string(j, "ref"),
        read_string(j, "rev"),
        read_opt_bool(j, "shallow"),
        read_string(j, "url"),
    ) {
        (Some(last_modified), Some(ref_), Some(rev), Some(shallow), Some(url)) => Some(
            Locked::Git { last_modified, ref_, rev, shallow, url },
        ),
        _ => None,
    }
}

fn decode_tagged_locked(j: &Json) -> (r: Option<Locked>)
    ensures
        opt_locked_view(r) == tagged_locked(j@),
{
    match read_string(j, "type") {
        Some(t) => if str_eq(t.as_str(), "path") {
            decode_path_locked(j)
        } else if str_eq(t.as_str(), "tarball") {
            decode_tarball_locked(j)
        } else if str_eq(t.as_str(), "git") {
            decode_git_locked(j)
        } else {
            None
        },
        None => None,
    }
}

fn decode_service_locked(j: &Json) -> (r: Option<Locked>)
    ensures
        opt_locked_view(r) == service_locked(j@),
{
    match read_string(j, "type") {
        Some(t) => match (
            GitServiceType::from_name(t.as_str()),
            read_string(j, "owner"),
            read_string(j, "repo"),
            read_string(j, "rev"),
            read_opt_u64(j, "lastModified"),
            read_opt_string(j, "host"),
        ) {
            (Some(type_), Some(owner), Some(repo), Some(rev), Some(last_modified), Some(host)) => Some(
                Locked::GitService { type_, owner, repo, rev, last_modified, host },
            ),
            _ => None,
        },
        None => None,
    }
}

fn decode_other_locked(j: &Json) -> (r: Option<Locked>)
    ensures
        opt_locked_view(r) == other_locked(j@),
{
    match (
        read_string(j, "type"),
        read_opt_string(j, "rev"),
        read_opt_string(j, "url"),
        read_opt_u64(j, "lastModified"),
    ) {
        (Some(type_), Some(rev), Some(url), Some(last_modified)) => Some(
            Locked::Other { type_, rev, url, last_modified },
        ),
        _ => None,
    }
}

impl Locked {
    /// Reads the locked state that a JSON object describes.
    pub fn from_json(j: &Json) -> (r: Option<Locked>)
        ensures
            opt_locked_view(r) == locked_of_json(j@),
    {
        match decode_tagged_locked(j) {
            Some(l) => Some(l),
            None => match decode_service_locked(j) {
                Some(l) => Some(l),
                None => decode_other_locked(j),
            },
        }
    }
}

/// The members of a declared `indirect` reference.
pub open spec fn indirect_original(j: JsonView) -> Option<OriginalView> {
    match (string_field(j, "id"@), opt_string_field(j, "rev"@), opt_string_field(j, "ref"@)) {
        (Some(id), Some(rev), Some(ref_)) => Some(OriginalView::Indirect { id, rev, ref_ }),
        _ => None,
    }
}

/// The members of a declared `git` reference.
pub open spec fn git_original(j: JsonView) -> Option<OriginalView> {
    match opt_string_field(j, "ref"@) {
        Some(ref_) => Some(OriginalView::Git { ref_ }),
        None => None,
    }
}

/// The reference that the `type` member selects by name.
pub open spec fn tagged_original(j: JsonView) -> Option<OriginalView> {
    match string_field(j, "type"@) {
        Some(t) => if t == "indirect"@ {
            indirect_original(j)
        } else if t == "path"@ {
            Some(OriginalView::Path)
        } else if t == "tarball"@ {
            Some(OriginalView::Tarball {  })
        } else if t == "file"@ {
            Some(OriginalView::File)
        } else if t == "git"@ {
            git_original(j)
        } else if t == "mercurial"@ {
            Some(OriginalView::Mercurial)
        } else {
            None
        },
        None => None,
    }
}

/// The members of a reference to a Git hosting service.
pub open spec fn service_original(j: JsonView) -> Option<OriginalView> {
    match string_field(j, "type"@) {
        Some(t) => match (service_type_named(t), opt_string_field(j, "ref"@)) {
            (Some(type_), Some(ref_)) => Some(OriginalView::GitService { type_, ref_ }),
            _ => None,
        },
        None => None,
    }
}

/// The reference that a JSON object describes: the kind that its `type`
/// names, where its members fit that kind; else a Git hosting service, where
/// they fit one; else any reference with a `type`.
pub open spec fn original_of_json(j: JsonView) -> Option<OriginalView> {
    match tagged_original(j) {
        Some(o) => Some(o),
        None => match service_original(j) {
            Some(o) => Some(o),
            None => match string_field(j, "type"@) {
                Some(type_) => Some(OriginalView::Other { type_ }),
                None => None,
            },
        },
    }
}

/// The model of an optional [`Original`].
pub open spec fn opt_original_view(o: Option<Original>) -> Option<OriginalView> {
    match o {
        Some(o) => Some(o@),
        None => None,
    }
}

fn decode_indirect_original(j: &Json) -> (r: Option<Original>)
    ensures
        opt_original_view(r) == indirect_original(j@),
{
    match (read_string(j, "id"), read_opt_string(j, "rev"), read_opt_string(j, "ref")) {
        (Some(id), Some(rev), Some(ref_)) => Some(Original::Indirect { id, rev, ref_ }),
        _ => None,
    }
}

fn decode_tagged_original(j: &Json) -> (r: Option<Original>)
    ensures
        opt_original_view(r) == tagged_original(j@),
{
    match read_string(j, "type") {
        Some(t) => if str_eq(t.as_str(), "indirect") {
            decode_indirect_original(j)
        } else if str_eq(t.as_str(), "path") {
            Some(Original::Path)
        } else if str_eq(t.as_str(), "tarball") {
            Some(Original::Tarball {  })
        } else if str_eq(t.as_str(), "file") {
            Some(Original::File)
        } else if str_eq(t.as_str(), "git") {
            match read_opt_string(j, "ref") {
                Some(ref_) => Some(Original::Git { ref_ }),
                None => None,
            }
        } else if str_eq(t.as_str(), "mercurial") {
            Some(Original::Mercurial)
        } else {
            None
        },
        None => None,
    }
}

fn decode_service_original(j: &Json) -> (r: Option<Original>)
    ensures
        opt_original_view(r) == service_original(j@),
{
    match read_string(j, "type") {
        Some(t) => match (GitServiceType::from_name(t.as_str()), read_opt_string(j, "ref")) {
            (Some(type_), Some(ref_)) => Some(Original::GitService { type_, ref_ }),
            _ => None,
        },
        None => None,
    }
}

impl Original {
    /// Reads the reference that a JSON object describes.
    pub fn from_json(j: &Json) -> (r: Option<Original>)
        ensures
            opt_original_view(r) == original_of_json(j@),
    {
        match decode_tagged_original(j) {
            Some(o) => Some(o),
            None => match decode_service_original(j) {
                Some(o) => Some(o),
                None => match read_string(j, "type") {
                    Some(type_) => Some(Original::Other { type_ }),
                    None => None,
                },
            },
        }
    }
}

/// Whether a reference of the kind of `inner` has a member named `key`.
pub open spec fn is_known_key(inner: OriginalView, key: Seq<char>) -> bool {
    key == "type"@ || match inner {
        OriginalView::Indirect { .. } => key == "id"@ || key == "rev"@ || key == "ref"@,
        OriginalView::Git { .. } => key == "ref"@,
        OriginalView::GitService { .. } => key == "ref"@,
        _ => false,
    }
}

/// The members whose keys a reference of the kind of `inner` does not know,
/// in order.
pub open spec fn unknown_members(
    members: Seq<(Seq<char>, JsonView)>,
    inner: OriginalView,
) -> Seq<(Seq<char>, JsonView)>
    decreases members.len(),
{
    if members.len() == 0 {
        Seq::empty()
    } else {
        let rest = unknown_members(members.drop_last(), inner);
        if is_known_key(inner, members.last().0) {
            rest
        } else {
            rest.push(members.last())
        }
    }
}

impl OriginalExtraView {
    /// None of the members that are kept beside the reference has a key
    /// that the kind of the reference knows, and no key occurs twice among
    /// them.
    pub open spec fn is_valid(self) -> bool {
        &&& forall|i: int|
            0 <= i < self.extra.len() ==> !is_known_key(self.inner, #[trigger] self.extra[i].0)
        &&& keys_distinct(self.extra)
    }
}

/// Among the unknown members of members without a key that occurs twice, no
/// key occurs twice.
pub proof fn lemma_unknown_members_distinct(
    members: Seq<(Seq<char>, JsonView)>,
    inner: OriginalView,
)
    requires
        keys_distinct(members),
    ensures
        keys_distinct(unknown_members(members, inner)),
    decreases members.len(),
{
    if members.len() > 0 {
        let front = members.drop_last();
        let rest = unknown_members(front, inner);
        assert(keys_distinct(front)) by {
            assert forall|i: int, k: int| 0 <= i < k < front.len() implies (#[trigger] front[i]).0
                != (#[trigger] front[k]).0 by {
                assert(front[i] == members[i] && front[k] == members[k]);
            }
        }
        lemma_unknown_members_distinct(front, inner);
        lemma_unknown_members(front, inner);
        if !is_known_key(inner, members.last().0) {
            let all = rest.push(members.last());
            assert forall|i: int, k: int| 0 <= i < k < all.len() implies (#[trigger] all[i]).0 != (
            #[trigger] all[k]).0 by {
                if k == rest.len() {
                    assert(all[i] == rest[i]);
                    assert(front.contains(rest[i]));
                    let p = choose|p: int| 0 <= p < front.len() && front[p] == rest[i];
                    assert(members[p] == front[p]);
                    assert(members[members.len() - 1] == members.last());
                } else {
                    assert(all[i] == rest[i] && all[k] == rest[k]);
                }
            }
        }
    }
}

/// The unknown members are members, and none of them has a known key.
pub proof fn lemma_unknown_members(members: Seq<(Seq<char>, JsonView)>, inner: OriginalView)
    ensures
        unknown_members(members, inner).len() <= members.len(),
        forall|i: int|
            0 <= i < unknown_members(members, inner).len() ==> {
                let member = #[trigger] unknown_members(members, inner)[i];
                members.contains(member) && !is_known_key(inner, member.0)
            },
    decreases members.len(),
{
    if members.len() > 0 {
        lemma_unknown_members(members.drop_last(), inner);
        let rest = unknown_members(members.drop_last(), inner);
        assert forall|i: int| 0 <= i < unknown_members(members, inner).len() implies {
            let member = #[trigger] unknown_members(members, inner)[i];
            members.contains(member) && !is_known_key(inner, member.0)
        } by {
            let member = unknown_members(members, inner)[i];
            if i < rest.len() {
                assert(member == rest[i]);
                assert(members.drop_last().contains(member));
                let k = choose|k: int| 0 <= k < members.drop_last().len() && members.drop_last()[k] == member;
                assert(members[k] == member);
            } else {
                assert(member == members.last());
                assert(members[members.len() - 1] == member);
            }
        }
    }
}

/// The reference that a JSON object describes, with the members that its
/// kind does not know: of each key the first member only.
pub open spec fn original_extra_of_json(j: JsonView) -> Option<OriginalExtraView> {
    match j {
        JsonView::Object(members) => match original_of_json(j) {
            Some(inner) => Some(
                OriginalExtraView { inner, extra: unknown_members(unique_members(members), inner) },
            ),
            None => None,
        },
        _ => None,
    }
}

/// The model of an optional [`OriginalExtra`].
pub open spec fn opt_original_extra_view(o: Option<OriginalExtra>) -> Option<OriginalExtraView> {
    match o {
        Some(o) => Some(o@),
        None => None,
    }
}

impl Original {
    /// Whether a reference of this kind has a member named `key`.
    pub fn knows_key(&self, key: &str) -> (r: bool)
        ensures
            r == is_known_key(self@, key@),
    {
        str_eq(key, "type") || match self {
            Original::Indirect { .. } => str_eq(key, "id") || str_eq(key, "rev") || str_eq(
                key,
                "ref",
            ),
            Original::Git { .. } => str_eq(key, "ref"),
            Original::GitService { .. } => str_eq(key, "ref"),
            _ => false,
        }
    }
}

impl OriginalExtra {
    /// Reads the reference that a JSON object describes and keeps the
    /// members that its kind does not know.
    pub fn from_json(j: &Json) -> (r: Option<OriginalExtra>)
        ensures
            opt_original_extra_view(r) == original_extra_of_json(j@),
            r matches Some(original) ==> original@.is_valid(),
    {
        proof {
            if let JsonView::Object(members) = j@ {
                if let Some(inner) = original_of_json(j@) {
                    lemma_unique_members(members);
                    lemma_unknown_members(unique_members(members), inner);
                    lemma_unknown_members_distinct(unique_members(members), inner);
                }
            }
        }
        match j {
            Json::Object(members) => match Original::from_json(j) {
                Some(inner) => {
                    let unique = unique_members_of(members);
                    let ghost all = members_view(unique@);
                    proof {
                        lemma_members_view(unique@);
                    }
                    let mut extra: Vec<JsonMember> = Vec::new();
                    let mut i: usize = 0;
                    proof {
                        lemma_members_view(extra@);
                        assert(all.take(0) =~= Seq::empty());
                        assert(members_view(extra@) =~= unknown_members(all.take(0), inner@));
                    }
                    while i < unique.len()
                        invariant
                            i <= unique.len(),
                            all == members_view(unique@),
                            all.len() == unique.len(),
                            forall|k: int|
                                0 <= k < unique.len() ==> #[trigger] all[k] == (
                                    unique[k].key@,
                                    unique[k].value@,
                                ),
                            members_view(extra@) == unknown_members(all.take(i as int), inner@),
                        decreases unique.len() - i,
                    {
                        let ghost before = extra@;
                        proof {
                            assert(all.take(i + 1).drop_last() =~= all.take(i as int));
                            assert(all.take(i + 1).last() == all[i as int]);
                        }
                        if !inner.knows_key(unique[i].key.as_str()) {
                            let value = clone_json(&unique[i].value);
                            extra.push(JsonMember { key: unique[i].key.clone(), value });
                            proof {
                                lemma_members_view(before);
                                lemma_members_view(extra@);
                                assert(members_view(extra@) =~= members_view(before).push(
                                    all[i as int],
                                ));
                            }
                        }
                        i += 1;
                    }
                    assert(all.take(i as int) =~= all);
                    Some(OriginalExtra { inner, extra })
                },
                None => None,
            },
            _ => None,
        }
    }
}

/// The node that a JSON object describes: its members `locked` and
/// `original`, both of which must be there.
pub open spec fn node_of_json(j: JsonView) -> Option<LockfileNodeView> {
    match (j.get("locked"@), j.get("original"@)) {
        (Some(l), Some(o)) => match (locked_of_json(l), original_extra_of_json(o)) {
            (Some(locked), Some(original)) => Some(LockfileNodeView { locked, original }),
            _ => None,
        },
        _ => None,
    }
}

/// The model of an optional [`LockfileNode`].
pub open spec fn opt_node_view(n: Option<LockfileNode>) -> Option<LockfileNodeView> {
    match n {
        Some(n) => Some(n@),
        None => None,
    }
}

impl LockfileNode {
    /// Reads the node that a JSON object describes.
    pub fn from_json(j: &Json) -> (r: Option<LockfileNode>)
        ensures
            opt_node_view(r) == node_of_json(j@),
    {
        match (j.get("locked"), j.get("original")) {
            (Some(l), Some(o)) => match (Locked::from_json(l), OriginalExtra::from_json(o)) {
                (Some(locked), Some(original)) => Some(LockfileNode { locked, original }),
                _ => None,
            },
            _ => None,
        }
    }
}

/// The lock document that a JSON object describes: `version` must be the
/// number 7, `root` a string and `nodes` an object. Of the nodes with one
/// name the first is kept.
pub open spec fn lockfile_of_json(j: JsonView) -> Option<LockfileView> {
    match (u64_field(j, "version"@), string_field(j, "root"@), j.get("nodes"@)) {
        (Some(version), Some(root_id), Some(JsonView::Object(raw_nodes))) => if version == 7 {
            Some(LockfileView { root_id, raw_nodes: unique_members(raw_nodes) })
        } else {
            None
        },
        _ => None,
    }
}

/// The node that the input `input_id` of the root node refers to: the
/// lookup goes from the root node through its `inputs` to the name of a
/// node, and on to that node.
pub open spec fn input_node(lockfile: LockfileView, input_id: Seq<char>) -> Option<JsonView> {
    match member_value(lockfile.raw_nodes, lockfile.root_id) {
        Some(root) => match root.get("inputs"@) {
            Some(inputs) => match inputs.get(input_id) {
                Some(reference) => match reference.as_str() {
                    Some(child_id) => member_value(lockfile.raw_nodes, child_id),
                    None => None,
                },
                None => None,
            },
            None => None,
        },
        None => None,
    }
}

/// What reading a lock document from `bytes` gives, where it succeeds.
pub open spec fn lockfile_of_bytes(bytes: Seq<u8>) -> Option<LockfileView> {
    match parsed_document(bytes) {
        Some(j) => lockfile_of_json(j),
        None => None,
    }
}

impl Lockfile {
    /// Reads the lock document that a JSON value describes. Anything but an
    /// object with `version` 7, a `root` and `nodes` is a format error.
    pub fn from_json(j: &Json) -> (r: Result<Lockfile, LockError>)
        ensures
            match r {
                Ok(lockfile) => lockfile_of_json(j@) == Some(lockfile@) && lockfile@.is_valid(),
                Err(e) => e is Format && lockfile_of_json(j@) is None,
            },
    {
        match (read_u64(j, "version"), read_string(j, "root"), j.get("nodes")) {
            (Some(number), Some(root_id), Some(Json::Object(nodes))) => {
                match Version::<7>::from_number(number) {
                    Some(version) => {
                        let raw_nodes = unique_members_of(nodes);
                        Ok(Lockfile::V7 { version, root_id, raw_nodes })
                    },
                    None => Err(LockError::Format(String::from_str("unsupported version"))),
                }
            },
            _ => Err(
                LockError::Format(String::from_str("data did not match the shape of a lockfile")),
            ),
        }
    }

    /// Reads a lock document from the bytes of a file. Bytes that are no
    /// JSON, and a document of another shape or version, are a format error.
    pub fn decode(bytes: &[u8]) -> (r: Result<Lockfile, LockError>)
        ensures
            match r {
                Ok(lockfile) => lockfile_of_bytes(bytes@) == Some(lockfile@) && lockfile@.is_valid(),
                Err(e) => e is Format && lockfile_of_bytes(bytes@) is None,
            },
    {
        match parse_json(bytes) {
            Ok(j) => Lockfile::from_json(&j),
            Err(message) => Err(LockError::Format(message)),
        }
    }

    /// The node that the input `input_id` of the root node refers to, before
    /// it is read in full.
    pub fn find_input(&self, input_id: &str) -> (r: Option<&Json>)
        ensures
            opt_json_view(r) == input_node(self@, input_id@),
    {
        match self {
            Lockfile::V7 { root_id, raw_nodes, .. } => {
                match find_member(raw_nodes, root_id.as_str()) {
                    Some(root) => match root.get("inputs") {
                        Some(inputs) => match inputs.get(input_id) {
                            Some(reference) => match reference.as_str() {
                                Some(child_id) => find_member(raw_nodes, child_id),
                                None => None,
                            },
                            None => None,
                        },
                        None => None,
                    },
                    None => None,
                }
            },
        }
    }

    /// Reads the node of the input `input_id` in full. A lookup that ends
    /// nowhere is missing data; a node of another shape is a format error.
    pub fn extract_input(self, input_id: &str) -> (r: Result<LockfileNode, LockError>)
        ensures
            match r {
                Ok(node) => input_node(self@, input_id@) matches Some(j) && node_of_json(j) == Some(
                    node@,
                ),
                Err(LockError::MissingData) => input_node(self@, input_id@) is None,
                Err(LockError::Format(_)) => input_node(self@, input_id@) matches Some(j)
                    && node_of_json(j) is None,
            },
    {
        match self.find_input(input_id) {
            Some(raw_node) => match LockfileNode::from_json(raw_node) {
                Some(node) => Ok(node),
                None => Err(LockError::Format(String::from_str("failed to deserialize node"))),
            },
            None => Err(LockError::MissingData),
        }
    }
}

/// What reading the node of the input `input_id` from the bytes of a lock
/// file gives.
pub open spec fn loaded_input(bytes: Seq<u8>, input_id: Seq<char>) -> Result<
    LockfileNodeView,
    LoadFailure,
> {
    match lockfile_of_bytes(bytes) {
        None => Err(LoadFailure::Format),
        Some(lockfile) => match input_node(lockfile, input_id) {
            None => Err(LoadFailure::MissingData),
            Some(j) => match node_of_json(j) {
                Some(node) => Ok(node),
                None => Err(LoadFailure::Format),
            },
        },
    }
}

/// The kind of a [`LockError`].
pub enum LoadFailure {
    Format,
    MissingData,
}

/// The kind of an error.
pub open spec fn failure_of(e: LockError) -> LoadFailure {
    match e {
        LockError::Format(_) => LoadFailure::Format,
        LockError::MissingData => LoadFailure::MissingData,
    }
}

/// Reads the node of the input `input_id` from the bytes of a lock file.
pub fn load_lockfile_input(contents: &[u8], input_id: &str) -> (r: Result<LockfileNode, LockError>)
    ensures
        match r {
            Ok(node) => loaded_input(contents@, input_id@) == Ok::<LockfileNodeView, LoadFailure>(
                node@,
            ),
            Err(e) => loaded_input(contents@, input_id@) == Err::<LockfileNodeView, LoadFailure>(
                failure_of(e),
            ),
        },
{
    match Lockfile::decode(contents) {
        Ok(lockfile) => lockfile.extract_input(input_id),
        Err(e) => Err(e),
    }
}

/// A document whose `version` is not the number 7 is no lock document.
pub proof fn lemma_other_version_is_refused(j: JsonView)
    requires
        u64_field(j, "version"@) != Some(7u64),
    ensures
        lockfile_of_json(j) is None,
{
}

/// A lock document without its root node, or whose root node has no input
/// `input_id`, has no node for that input: the data is missing.
pub proof fn lemma_missing_root_or_input(lockfile: LockfileView, input_id: Seq<char>)
    requires
        member_value(lockfile.raw_nodes, lockfile.root_id) is None || ({
            let root = member_value(lockfile.raw_nodes, lockfile.root_id)->0;
            root.get("inputs"@) is None || root.get("inputs"@)->0.get(input_id) is None
        }),
    ensures
        input_node(lockfile, input_id) is None,
{
}

} // verus!
