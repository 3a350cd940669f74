use flake_gcroots::discover::{
    classify_marker, filter_gcroot, lockfile_to_check, Flake, FlakeMap, MarkerClass,
};
use flake_gcroots::text::has_prefix;

fn class(directory: &str, is_direnv: bool, is_build_result: bool) -> Option<MarkerClass> {
    Some(MarkerClass { directory: directory.to_string(), is_direnv, is_build_result })
}

#[test]
fn roots_below_direnv_belong_to_its_parent() {
    assert_eq!(classify_marker("/a/b/.direnv/flake-profile-1-link"), class("/a/b", true, false));
    assert_eq!(classify_marker("/a/b/.direnv/x/y/z"), class("/a/b", true, false));
    assert_eq!(classify_marker("/a/b/.direnv"), class("/a/b", true, false));
}

#[test]
fn the_innermost_direnv_counts() {
    assert_eq!(classify_marker("/a/.direnv/b/.direnv/c"), class("/a/.direnv/b", true, false));
}

#[test]
fn build_results_belong_to_their_parent() {
    assert_eq!(classify_marker("/a/b/result"), class("/a/b", false, true));
    assert_eq!(classify_marker("/a/b/result-dev"), class("/a/b", false, true));
    assert_eq!(classify_marker("/a/b/result-"), class("/a/b", false, true));
    assert_eq!(classify_marker("result"), class("", false, true));
}

#[test]
fn direnv_wins_over_a_build_result() {
    assert_eq!(classify_marker("/a/b/.direnv/result"), class("/a/b", true, false));
}

#[test]
fn other_roots_belong_to_no_flake() {
    assert_eq!(classify_marker("/a/b/results"), None);
    assert_eq!(classify_marker("/a/b/resultx"), None);
    assert_eq!(classify_marker("/a/b/my-result"), None);
    assert_eq!(classify_marker("/a/b/.direnvx/c"), None);
    assert_eq!(classify_marker("/a/result/c"), None);
    assert_eq!(classify_marker("/"), None);
    assert_eq!(classify_marker(""), None);
}

#[test]
fn the_lock_file_lies_in_the_directory() {
    let flakes = FlakeMap::new();
    assert_eq!(lockfile_to_check(&flakes, "/a/b/result"), Some("/a/b/flake.lock".to_string()));
    assert_eq!(lockfile_to_check(&flakes, "/a/b/.direnv/x"), Some("/a/b/flake.lock".to_string()));
    assert_eq!(lockfile_to_check(&flakes, "/a/b/c"), None);
}

#[test]
fn the_lock_file_of_a_known_flake_is_not_looked_at() {
    let mut flakes = FlakeMap::new();
    filter_gcroot(&mut flakes, "nixpkgs", "/a/b/result", true, true);
    assert_eq!(lockfile_to_check(&flakes, "/a/b/.direnv/x"), None);
    assert_eq!(lockfile_to_check(&flakes, "/a/c/result"), Some("/a/c/flake.lock".to_string()));
}

#[test]
fn prefixes() {
    assert!(has_prefix("result-x", "result-"));
    assert!(has_prefix("result-", "result-"));
    assert!(!has_prefix("result", "result-"));
    assert!(!has_prefix("xresult-", "result-"));
    assert!(has_prefix("anything", ""));
    assert!(has_prefix("äöü-x", "äöü"));
}

#[test]
fn two_roots_of_one_flake_merge() {
    let mut flakes = FlakeMap::new();
    filter_gcroot(&mut flakes, "nixpkgs", "/a/b/.direnv/flake-profile", true, true);
    filter_gcroot(&mut flakes, "nixpkgs", "/a/b/result", true, true);
    assert!(flakes.contains("/a/b"));
    assert_eq!(
        flakes.into_flakes(),
        vec![Flake {
            id: "nixpkgs".to_string(),
            directory: "/a/b".to_string(),
            gcroots: vec!["/a/b/.direnv/flake-profile".to_string(), "/a/b/result".to_string()],
            has_build_result: true,
            has_direnv_gc_roots: true,
            lockfile_path: "/a/b/flake.lock".to_string(),
        }]
    );
}

#[test]
fn two_roots_of_one_flake_merge_in_the_other_order() {
    let mut flakes = FlakeMap::new();
    filter_gcroot(&mut flakes, "nixpkgs", "/a/b/result", true, true);
    filter_gcroot(&mut flakes, "nixpkgs", "/a/b/.direnv/flake-profile-1", true, false);
    let found = flakes.into_flakes();
    assert_eq!(found.len(), 1);
    assert_eq!(found[0].directory, "/a/b");
    assert_eq!(
        found[0].gcroots,
        vec!["/a/b/result".to_string(), "/a/b/.direnv/flake-profile-1".to_string()]
    );
    assert!(found[0].has_direnv_gc_roots && found[0].has_build_result);
}

#[test]
fn a_flake_without_a_lock_file_is_passed_over() {
    let mut flakes = FlakeMap::new();
    filter_gcroot(&mut flakes, "nixpkgs", "/a/b/result", true, false);
    assert!(!flakes.contains("/a/b"));
    assert_eq!(flakes.into_flakes(), vec![]);
}

#[test]
fn a_known_flake_takes_roots_whatever_is_said_of_its_lock_file() {
    let mut flakes = FlakeMap::new();
    filter_gcroot(&mut flakes, "nixpkgs", "/a/b/result", true, true);
    filter_gcroot(&mut flakes, "nixpkgs", "/a/b/result-2", true, false);
    let found = flakes.into_flakes();
    assert_eq!(found.len(), 1);
    assert_eq!(found[0].gcroots, vec!["/a/b/result".to_string(), "/a/b/result-2".to_string()]);
    assert!(found[0].has_build_result && !found[0].has_direnv_gc_roots);
}

#[test]
fn a_stale_root_changes_nothing() {
    let mut flakes = FlakeMap::new();
    filter_gcroot(&mut flakes, "nixpkgs", "/a/b/result", false, true);
    assert_eq!(flakes.into_flakes(), vec![]);
}

#[test]
fn roots_of_no_flake_change_nothing() {
    let mut flakes = FlakeMap::new();
    filter_gcroot(&mut flakes, "nixpkgs", "/a/b/other", true, true);
    assert_eq!(flakes.into_flakes(), vec![]);
}

#[test]
fn different_directories_make_different_flakes() {
    let mut flakes = FlakeMap::new();
    filter_gcroot(&mut flakes, "nixpkgs", "/a/b/result", true, true);
    filter_gcroot(&mut flakes, "nixpkgs", "/a/c/result", true, true);
    filter_gcroot(&mut flakes, "nixpkgs", "/a/b/.direnv/x", true, true);
    let mut found = flakes.into_flakes();
    found.sort_by(|x, y| x.directory.cmp(&y.directory));
    assert_eq!(found.len(), 2);
    assert_eq!(found[0].directory, "/a/b");
    assert_eq!(found[0].gcroots.len(), 2);
    assert!(found[0].has_direnv_gc_roots && found[0].has_build_result);
    assert_eq!(found[1].directory, "/a/c");
    assert!(!found[1].has_direnv_gc_roots && found[1].has_build_result);
}

#[test]
fn git_directories_of_the_ancestors() {
    let flake = Flake {
        id: "nixpkgs".to_string(),
        directory: "/a/b".to_string(),
        gcroots: vec![],
        has_build_result: false,
        has_direnv_gc_roots: false,
        lockfile_path: "/a/b/flake.lock".to_string(),
    };
    assert_eq!(
        flake.git_dirs(),
        vec!["/a/b/.git".to_string(), "/a/.git".to_string(), "/.git".to_string()]
    );
    assert!(!flake.in_git_repo(&[false, false, false]));
    assert!(flake.in_git_repo(&[false, true, false]));
    assert!(!flake.in_git_repo(&[]));
}
