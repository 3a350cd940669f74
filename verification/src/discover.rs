//! Finding the flakes behind garbage collector roots: one flake for each
//! directory, whatever number of roots lead to it.

use vstd::prelude::*;
use vstd::string::*;
use crate::text::{has_prefix, opt_string_view, starts_with, str_eq, strings_view};

verus! {

/// A flake that has garbage collector roots.
#[derive(Debug, PartialEq, Eq)]
pub struct Flake {
    /// The name of the input that is looked at.
    pub id: String,
    /// The directory of the flake: the parent of its `flake.lock`.
    pub directory: String,
    /// The garbage collector roots that lead to the flake.
    pub gcroots: Vec<String>,
    /// Whether a build result is among the roots.
    pub has_build_result: bool,
    /// Whether a root of direnv is among the roots.
    pub has_direnv_gc_roots: bool,
    /// The path of the flake's `flake.lock`.
    pub lockfile_path: String,
}

/// The model of a [`Flake`].
pub struct FlakeView {
    pub id: Seq<char>,
    pub directory: Seq<char>,
    pub gcroots: Seq<Seq<char>>,
    pub has_build_result: bool,
    pub has_direnv_gc_roots: bool,
    pub lockfile_path: Seq<char>,
}

impl View for Flake {
    type V = FlakeView;

    open spec fn view(&self) -> FlakeView {
        FlakeView {
            id: self.id@,
            directory: self.directory@,
            gcroots: strings_view(self.gcroots@),
            has_build_result: self.has_build_result,
            has_direnv_gc_roots: self.has_direnv_gc_roots,
            lockfile_path: self.lockfile_path@,
        }
    }
}

/// A flake is kept under its directory.
impl iddqd::IdHashItem for Flake {
    type Key<'a> = &'a str;

    /// The key of the flake: its directory.
    fn key(&self) -> (key: Self::Key<'_>)
        ensures
            key@ == self@.directory,
    {
        self.directory.as_str()
    }

    /// The same key, borrowed for a shorter time.
    fn upcast_key<'short, 'long: 'short>(long: Self::Key<'long>) -> (short: Self::Key<'short>)
        ensures
            short@ == long@,
    {
        long
    }
}

/// The path and its ancestors as `std::path::Path::ancestors` gives them:
/// the path itself first. This name and the three that follow stand for
/// what `std::path` does on the platform that the library is built for.
pub uninterp spec fn ancestors_of(path: Seq<char>) -> Seq<Seq<char>>;

/// The final component of a path as `std::path::Path::file_name` gives it.
pub uninterp spec fn file_name_of(path: Seq<char>) -> Option<Seq<char>>;

/// The path without its final component, as `std::path::Path::parent` gives
/// it.
pub uninterp spec fn parent_of(path: Seq<char>) -> Option<Seq<char>>;

/// The path that `std::path::Path::join` makes of a path and a name.
pub uninterp spec fn joined_path(base: Seq<char>, name: Seq<char>) -> Seq<char>;

/// Calls `std::path::Path::ancestors` and hands each ancestor out as a
/// string. The contract claims that the outcome depends on the path alone.
#[verifier::external_body]
fn path_ancestors(path: &str) -> (r: Vec<String>)
    ensures
        strings_view(r@) == ancestors_of(path@),
{
    std::path::Path::new(path).ancestors().map(|p| p.to_string_lossy().into_owned()).collect()
}

/// Calls `std::path::Path::file_name`. The contract claims that the outcome
/// depends on the path alone.
#[verifier::external_body]
fn path_file_name(path: &str) -> (r: Option<String>)
    ensures
        opt_string_view(r) == file_name_of(path@),
{
    std::path::Path::new(path).file_name().map(|n| n.to_string_lossy().into_owned())
}

/// Calls `std::path::Path::parent`. The contract claims that the outcome
/// depends on the path alone.
#[verifier::external_body]
fn path_parent(path: &str) -> (r: Option<String>)
    ensures
        opt_string_view(r) == parent_of(path@),
{
    std::path::Path::new(path).parent().map(|p| p.to_string_lossy().into_owned())
}

/// Calls `std::path::Path::join`. The contract claims that the outcome
/// depends on the two texts alone.
#[verifier::external_body]
fn path_join(base: &str, name: &str) -> (r: String)
    ensures
        r@ == joined_path(base@, name@),
{
    std::path::Path::new(base).join(name).to_string_lossy().into_owned()
}

/// Whether a final component names a build result: `result`, or a name that
/// begins with `result-`.
pub open spec fn is_build_result_name(name: Seq<char>) -> bool {
    name == "result"@ || starts_with(name, "result-"@)
}

/// The parent of the first of `ancestors` that is named `.direnv`.
pub open spec fn direnv_owner(ancestors: Seq<Seq<char>>) -> Option<Seq<char>>
    decreases ancestors.len(),
{
    if ancestors.len() == 0 {
        None
    } else if file_name_of(ancestors[0]) == Some(".direnv"@) {
        parent_of(ancestors[0])
    } else {
        direnv_owner(ancestors.drop_first())
    }
}

/// The flake that a garbage collector root belongs to, and of which kind
/// the root is.
#[derive(Debug, PartialEq, Eq)]
pub struct MarkerClass {
    pub directory: String,
    pub is_direnv: bool,
    pub is_build_result: bool,
}

/// The model of a [`MarkerClass`].
pub struct MarkerClassView {
    pub directory: Seq<char>,
    pub is_direnv: bool,
    pub is_build_result: bool,
}

impl View for MarkerClass {
    type V = MarkerClassView;

    open spec fn view(&self) -> MarkerClassView {
        MarkerClassView {
            directory: self.directory@,
            is_direnv: self.is_direnv,
            is_build_result: self.is_build_result,
        }
    }
}

/// The class of a root. A root below a directory named `.direnv` belongs to
/// the parent of that directory. Else a root named like a build result
/// belongs to its parent. Any other root belongs to no flake.
pub open spec fn marker_class(gcroot: Seq<char>) -> Option<MarkerClassView> {
    match direnv_owner(ancestors_of(gcroot)) {
        Some(directory) => Some(
            MarkerClassView { directory, is_direnv: true, is_build_result: false },
        ),
        None => match file_name_of(gcroot) {
            Some(name) => if is_build_result_name(name) {
                match parent_of(gcroot) {
                    Some(directory) => Some(
                        MarkerClassView { directory, is_direnv: false, is_build_result: true },
                    ),
                    None => None,
                }
            } else {
                None
            },
            None => None,
        },
    }
}

/// The model of an optional [`MarkerClass`].
pub open spec fn opt_class_view(class: Option<MarkerClass>) -> Option<MarkerClassView> {
    match class {
        Some(c) => Some(c@),
        None => None,
    }
}

/// Finds the parent of the first ancestor of `gcroot` that is named
/// `.direnv`.
fn find_direnv_owner(gcroot: &str) -> (r: Option<String>)
    ensures
        opt_string_view(r) == direnv_owner(ancestors_of(gcroot@)),
{
    let ancestors = path_ancestors(gcroot);
    let ghost all = ancestors_of(gcroot@);
    assert(all.skip(0) =~= all);
    let mut i: usize = 0;
    while i < ancestors.len()
        invariant
            i <= ancestors.len(),
            all == ancestors_of(gcroot@),
            strings_view(ancestors@) == all,
            direnv_owner(all) == direnv_owner(all.skip(i as int)),
        decreases ancestors.len() - i,
    {
        let ghost rest = all.skip(i as int);
        assert(rest[0] == ancestors[i as int]@);
        assert(rest.drop_first() == all.skip(i + 1));
        let name = path_file_name(ancestors[i].as_str());
        let found = match &name {
            Some(name) => str_eq(name.as_str(), ".direnv"),
            None => false,
        };
        assert(found == (file_name_of(rest[0]) == Some(".direnv"@)));
        if found {
            assert(direnv_owner(rest) == parent_of(rest[0]));
            return path_parent(ancestors[i].as_str());
        }
        i += 1;
    }
    assert(all.skip(i as int).len() == 0);
    None
}

/// Finds the flake that a garbage collector root belongs to.
pub fn classify_marker(gcroot: &str) -> (r: Option<MarkerClass>)
    ensures
        opt_class_view(r) == marker_class(gcroot@),
{
    match find_direnv_owner(gcroot) {
        Some(directory) => Some(MarkerClass { directory, is_direnv: true, is_build_result: false }),
        None => match path_file_name(gcroot) {
            Some(name) => if str_eq(name.as_str(), "result") || has_prefix(
                name.as_str(),
                "result-",
            ) {
                match path_parent(gcroot) {
                    Some(directory) => Some(
                        MarkerClass { directory, is_direnv: false, is_build_result: true },
                    ),
                    None => None,
                }
            } else {
                None
            },
            None => None,
        },
    }
}

/// The path of the `flake.lock` of a directory.
pub open spec fn lockfile_path_of(directory: Seq<char>) -> Seq<char> {
    joined_path(directory, "flake.lock"@)
}


/// The flakes that were found, each under its directory. They are kept in an
/// `iddqd::IdHashMap`, whose inside is not looked at here: [`flakes_of`]
/// names what it holds.
#[verifier::external_body]
pub struct FlakeMap {
    inner: iddqd::IdHashMap<Flake>,
}

/// The flakes that a map holds, each under its directory.
pub uninterp spec fn flakes_of(flakes: FlakeMap) -> Map<Seq<char>, FlakeView>;

/// No flakes.
pub open spec fn no_flakes() -> Map<Seq<char>, FlakeView> {
    Map::empty()
}

/// Calls `iddqd::IdHashMap::new`. The contract claims that the new map
/// holds nothing.
#[verifier::external_body]
fn map_new() -> (flakes: FlakeMap)
    ensures
        flakes_of(flakes) == no_flakes(),
{
    FlakeMap { inner: iddqd::IdHashMap::new() }
}

/// Calls `iddqd::IdHashMap::contains_key`. The contract claims that it
/// tells whether a flake is held under `directory`.
#[verifier::external_body]
fn map_contains(flakes: &FlakeMap, directory: &str) -> (r: bool)
    ensures
        r == flakes_of(*flakes).dom().contains(directory@),
{
    flakes.inner.contains_key(directory)
}

/// Calls `iddqd::IdHashMap::remove`. The contract claims that the flake
/// held under `directory` leaves the map and comes back, that its directory
/// is `directory`, and that a map without such a flake stays as it is.
#[verifier::external_body]
fn map_remove(flakes: &mut FlakeMap, directory: &str) -> (r: Option<Flake>)
    ensures
        match r {
            Some(flake) => flakes_of(*old(flakes)).dom().contains(directory@) && flake@
                == flakes_of(*old(flakes))[directory@] && flake@.directory == directory@
                && flakes_of(*final(flakes)) == flakes_of(*old(flakes)).remove(directory@),
            None => !flakes_of(*old(flakes)).dom().contains(directory@) && flakes_of(
                *final(flakes),
            ) == flakes_of(*old(flakes)),
        },
{
    flakes.inner.remove(directory)
}

/// Calls `iddqd::IdHashMap::insert_overwrite`. The contract claims that the
/// flake is then held under its directory, in place of any that was, and
/// that nothing else changes.
#[verifier::external_body]
fn map_insert(flakes: &mut FlakeMap, flake: Flake)
    ensures
        flakes_of(*final(flakes)) == flakes_of(*old(flakes)).insert(flake@.directory, flake@),
{
    flakes.inner.insert_overwrite(flake);
}

/// Hands out the flakes of the map through its `IntoIterator`. The contract
/// claims that each flake of the map comes out once, found under its own
/// directory, and nothing else; it claims nothing of their order.
#[verifier::external_body]
fn map_into_vec(flakes: FlakeMap) -> (r: Vec<Flake>)
    ensures
        forall|directory: Seq<char>|
            flakes_of(flakes).dom().contains(directory) ==> exists|i: int|
                0 <= i < r.len() && (#[trigger] r[i])@.directory == directory,
        forall|i: int|
            0 <= i < r.len() ==> flakes_of(flakes).dom().contains((#[trigger] r[i])@.directory)
                && flakes_of(flakes)[r[i]@.directory] == r[i]@,
        forall|i: int, j: int|
            0 <= i < j < r.len() ==> (#[trigger] r[i])@.directory != (#[trigger] r[j])@.directory,
{
    flakes.inner.into_iter().collect()
}

/// The flake with one more root.
pub open spec fn merged_flake(flake: FlakeView, gcroot: Seq<char>, class: MarkerClassView) -> FlakeView {
    FlakeView {
        gcroots: flake.gcroots.push(gcroot),
        has_build_result: flake.has_build_result || class.is_build_result,
        has_direnv_gc_roots: flake.has_direnv_gc_roots || class.is_direnv,
        ..flake
    }
}

/// The flake as it is when its first root is found.
pub open spec fn first_found(id: Seq<char>, gcroot: Seq<char>, class: MarkerClassView) -> FlakeView {
    FlakeView {
        id,
        directory: class.directory,
        gcroots: seq![gcroot],
        has_build_result: class.is_build_result,
        has_direnv_gc_roots: class.is_direnv,
        lockfile_path: lockfile_path_of(class.directory),
    }
}

/// The flakes after one more root was looked at. A stale root, which leads
/// to nothing that exists, changes nothing, and so does a root that belongs
/// to no flake. A root of a flake that is held already is added to it. A
/// root of a new flake makes a new entry where the flake has a `flake.lock`,
/// and changes nothing where it has none.
pub open spec fn recorded(
    flakes: Map<Seq<char>, FlakeView>,
    id: Seq<char>,
    gcroot: Seq<char>,
    gcroot_exists: bool,
    lock_exists: bool,
) -> Map<Seq<char>, FlakeView> {
    match marker_class(gcroot) {
        None => flakes,
        Some(class) => if !gcroot_exists {
            flakes
        } else if flakes.dom().contains(class.directory) {
            flakes.insert(class.directory, merged_flake(flakes[class.directory], gcroot, class))
        } else if lock_exists {
            flakes.insert(class.directory, first_found(id, gcroot, class))
        } else {
            flakes
        },
    }
}

/// The lock file whose existence decides whether a root counts: the
/// `flake.lock` of the flake that the root belongs to, where that flake is
/// not held yet. For a root of a flake that is held, and for a root of no
/// flake, there is nothing to look at.
pub open spec fn lockfile_in_question(flakes: Map<Seq<char>, FlakeView>, gcroot: Seq<char>) -> Option<
    Seq<char>,
> {
    match marker_class(gcroot) {
        Some(class) => if flakes.dom().contains(class.directory) {
            None
        } else {
            Some(lockfile_path_of(class.directory))
        },
        None => None,
    }
}

/// The path of the lock file whose existence decides whether a root
/// counts, where there is one to look at.
pub fn lockfile_to_check(flakes: &FlakeMap, gcroot: &str) -> (r: Option<String>)
    ensures
        opt_string_view(r) == lockfile_in_question(flakes_of(*flakes), gcroot@),
{
    match classify_marker(gcroot) {
        Some(class) => if map_contains(flakes, class.directory.as_str()) {
            None
        } else {
            Some(path_join(class.directory.as_str(), "flake.lock"))
        },
        None => None,
    }
}

impl FlakeMap {
    /// A map that holds no flake.
    pub fn new() -> (flakes: FlakeMap)
        ensures
            flakes_of(flakes) == no_flakes(),
    {
        map_new()
    }

    /// Whether a flake is held under `directory`.
    pub fn contains(&self, directory: &str) -> (r: bool)
        ensures
            r == flakes_of(*self).dom().contains(directory@),
    {
        map_contains(self, directory)
    }

    /// The flakes, each once, in no stated order.
    pub fn into_flakes(self) -> (r: Vec<Flake>)
        ensures
            forall|directory: Seq<char>|
                flakes_of(self).dom().contains(directory) ==> exists|i: int|
                    0 <= i < r.len() && (#[trigger] r[i])@.directory == directory,
            forall|i: int|
                0 <= i < r.len() ==> flakes_of(self).dom().contains((#[trigger] r[i])@.directory)
                    && flakes_of(self)[r[i]@.directory] == r[i]@,
            forall|i: int, j: int|
                0 <= i < j < r.len() ==> (#[trigger] r[i])@.directory != (
                #[trigger] r[j])@.directory,
    {
        map_into_vec(self)
    }
}

/// Looks at one garbage collector root: `gcroot` is the path that the root
/// leads to, `gcroot_exists` says whether anything exists there, and
/// `lock_exists` whether the lock file of [`lockfile_to_check`] exists. For
/// a root without a lock file to look at, `lock_exists` changes nothing.
pub fn filter_gcroot(
    flakes: &mut FlakeMap,
    flake_id: &str,
    gcroot: &str,
    gcroot_exists: bool,
    lock_exists: bool,
)
    ensures
        flakes_of(*final(flakes)) == recorded(
            flakes_of(*old(flakes)),
            flake_id@,
            gcroot@,
            gcroot_exists,
            lock_exists,
        ),
{
    if !gcroot_exists {
        return ;
    }
    match classify_marker(gcroot) {
        None => {},
        Some(class) => {
            let ghost before = flakes_of(*flakes);
            match map_remove(flakes, class.directory.as_str()) {
                Some(existing) => {
                    let Flake {
                        id,
                        directory,
                        gcroots,
                        has_build_result,
                        has_direnv_gc_roots,
                        lockfile_path,
                    } = existing;
                    let mut gcroots = gcroots;
                    let ghost roots_before = strings_view(gcroots@);
                    gcroots.push(gcroot.to_owned());
                    assert(strings_view(gcroots@) =~= roots_before.push(gcroot@));
                    let flake = Flake {
                        id,
                        directory,
                        gcroots,
                        has_build_result: has_build_result || class.is_build_result,
                        has_direnv_gc_roots: has_direnv_gc_roots || class.is_direnv,
                        lockfile_path,
                    };
                    map_insert(flakes, flake);
                    assert(flakes_of(*flakes) =~= before.insert(
                        class@.directory,
                        merged_flake(before[class@.directory], gcroot@, class@),
                    ));
                },
                None => {
                    if lock_exists {
                        let lockfile_path = path_join(class.directory.as_str(), "flake.lock");
                        let mut gcroots: Vec<String> = Vec::new();
                        gcroots.push(gcroot.to_owned());
                        assert(strings_view(gcroots@) =~= seq![gcroot@]);
                        let flake = Flake {
                            id: flake_id.to_owned(),
                            directory: class.directory,
                            gcroots,
                            has_build_result: class.is_build_result,
                            has_direnv_gc_roots: class.is_direnv,
                            lockfile_path,
                        };
                        map_insert(flakes, flake);
                    }
                },
            }
        },
    }
}

/// The directories named `.git` that would make a directory part of a Git
/// repository: one in the directory itself and one in each of its
/// ancestors.
pub open spec fn git_dirs_of(directory: Seq<char>) -> Seq<Seq<char>> {
    Seq::new(
        ancestors_of(directory).len(),
        |i: int| joined_path(ancestors_of(directory)[i], ".git"@),
    )
}

impl Flake {
    /// The paths to look at to learn whether the flake lies in a Git
    /// repository.
    pub fn git_dirs(&self) -> (r: Vec<String>)
        ensures
            strings_view(r@) == git_dirs_of(self@.directory),
    {
        let ancestors = path_ancestors(self.directory.as_str());
        let mut r: Vec<String> = Vec::new();
        let mut i: usize = 0;
        while i < ancestors.len()
            invariant
                i <= ancestors.len(),
                strings_view(ancestors@) == ancestors_of(self@.directory),
                r.len() == i,
                forall|k: int|
                    0 <= k < i ==> (#[trigger] r[k])@ == joined_path(ancestors[k]@, ".git"@),
            decreases ancestors.len() - i,
        {
            r.push(path_join(ancestors[i].as_str(), ".git"));
            i += 1;
        }
        assert(strings_view(r@) =~= git_dirs_of(self@.directory));
        r
    }

    /// Whether the flake lies in a Git repository: `is_dir` says of each of
    /// the paths of [`Flake::git_dirs`] whether it is a directory.
    pub fn in_git_repo(&self, is_dir: &[bool]) -> (r: bool)
        ensures
            r == exists|i: int| 0 <= i < is_dir@.len() && is_dir@[i],
    {
        let mut i: usize = 0;
        while i < is_dir.len()
            invariant
                i <= is_dir.len(),
                forall|k: int| 0 <= k < i ==> !is_dir@[k],
            decreases is_dir.len() - i,
        {
            if is_dir[i] {
                return true;
            }
            i += 1;
        }
        false
    }
}

impl FlakeView {
    /// The flake has a root, a flag for the kind of one of its roots, and
    /// its lock file lies in its directory.
    pub open spec fn is_valid(self) -> bool {
        &&& self.gcroots.len() > 0
        &&& self.has_build_result || self.has_direnv_gc_roots
        &&& self.lockfile_path == lockfile_path_of(self.directory)
    }
}

/// Every flake is held under its own directory and is valid.
pub open spec fn flakes_valid(flakes: Map<Seq<char>, FlakeView>) -> bool {
    forall|directory: Seq<char>| #[trigger]
        flakes.dom().contains(directory) ==> flakes[directory].directory == directory
            && flakes[directory].is_valid()
}

/// Looking at one more root keeps every flake under its own directory and
/// valid.
pub proof fn lemma_recorded_flakes_stay_valid(
    flakes: Map<Seq<char>, FlakeView>,
    id: Seq<char>,
    gcroot: Seq<char>,
    gcroot_exists: bool,
    lock_exists: bool,
)
    requires
        flakes_valid(flakes),
    ensures
        flakes_valid(recorded(flakes, id, gcroot, gcroot_exists, lock_exists)),
{
    let after = recorded(flakes, id, gcroot, gcroot_exists, lock_exists);
    assert forall|directory: Seq<char>| #[trigger] after.dom().contains(directory) implies after[directory].directory
        == directory && after[directory].is_valid() by {
        match marker_class(gcroot) {
            None => {},
            Some(class) => {
                if directory != class.directory {
                    assert(flakes.dom().contains(directory));
                } else if flakes.dom().contains(class.directory) {
                    assert(flakes[class.directory].is_valid());
                }
            },
        }
    }
}

/// Where there is no lock file to look at, whether one exists changes
/// nothing.
pub proof fn lemma_lock_counts_only_in_question(
    flakes: Map<Seq<char>, FlakeView>,
    id: Seq<char>,
    gcroot: Seq<char>,
    gcroot_exists: bool,
)
    requires
        lockfile_in_question(flakes, gcroot) is None,
    ensures
        recorded(flakes, id, gcroot, gcroot_exists, true) == recorded(
            flakes,
            id,
            gcroot,
            gcroot_exists,
            false,
        ),
{
}

/// Two roots of one flake, found one after the other where no flake was
/// held yet, make one entry with both roots, in the order in which they
/// were found, and the flags of both. The lock file counts for the first
/// root only.
pub proof fn lemma_roots_of_one_flake_merge(
    id: Seq<char>,
    first: Seq<char>,
    second: Seq<char>,
    lock_exists: bool,
)
    requires
        marker_class(first) is Some,
        marker_class(second) is Some,
        marker_class(first)->0.directory == marker_class(second)->0.directory,
    ensures
        ({
            let a = marker_class(first)->0;
            let b = marker_class(second)->0;
            let flakes = recorded(
                recorded(no_flakes(), id, first, true, true),
                id,
                second,
                true,
                lock_exists,
            );
            &&& flakes.dom() =~= set![a.directory]
            &&& flakes[a.directory].gcroots == seq![first, second]
            &&& flakes[a.directory].has_direnv_gc_roots == (a.is_direnv || b.is_direnv)
            &&& flakes[a.directory].has_build_result == (a.is_build_result || b.is_build_result)
        }),
{
    let a = marker_class(first)->0;
    let flakes = recorded(
        recorded(no_flakes(), id, first, true, true),
        id,
        second,
        true,
        lock_exists,
    );
    assert(flakes[a.directory].gcroots =~= seq![first, second]);
}

} // verus!
