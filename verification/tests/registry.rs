use flake_gcroots::registry::{
    are_apart, found_or_nothing, get_opt_json, get_rev_from_registry, get_three_pointers,
    get_two_pointers, is_prefix_of, rev_of_entry, RegistryError,
};

const REGISTRY: &str = r#"{
  "flakes": [
    {"from": {"id": "other", "type": "indirect"}, "to": {"rev": "000", "type": "github"}, "exact": true},
    {"from": {"id": "nixpkgs", "type": "indirect"}, "to": {"rev": "loose", "type": "github"}, "exact": false},
    {"from": {"id": "nixpkgs", "type": "path"}, "to": {"rev": "path", "type": "github"}, "exact": true},
    {"from": {"id": "nixpkgs", "type": "indirect"}, "to": {"rev": "abc", "type": "github"}, "exact": true},
    {"from": {"id": "nixpkgs", "type": "indirect"}, "to": {"rev": "later", "type": "github"}, "exact": true}
  ],
  "version": 2
}"#;

fn path(keys: &[&str]) -> Vec<String> {
    keys.iter().map(|k| k.to_string()).collect()
}

#[test]
fn finds_the_pinned_revision() {
    assert_eq!(get_rev_from_registry(REGISTRY, "nixpkgs"), Ok("abc".to_string()));
    assert_eq!(get_rev_from_registry(REGISTRY, "other"), Ok("000".to_string()));
}

#[test]
fn a_flake_that_is_not_pinned_is_not_found() {
    assert_eq!(get_rev_from_registry(REGISTRY, "home-manager"), Err(RegistryError::NoSuchFlake));
    assert_eq!(
        get_rev_from_registry(r#"{"flakes": [], "version": 2}"#, "nixpkgs"),
        Err(RegistryError::NoSuchFlake)
    );
}

#[test]
fn other_versions_are_refused() {
    assert_eq!(
        get_rev_from_registry(r#"{"flakes": [], "version": 3}"#, "nixpkgs"),
        Err(RegistryError::UnsupportedVersion(3))
    );
    assert_eq!(
        get_rev_from_registry(r#"{"flakes": [], "version": "2"}"#, "nixpkgs"),
        Err(RegistryError::Invalid)
    );
}

#[test]
fn a_revision_that_is_no_string_is_invalid() {
    let registry = r#"{"flakes": [
        {"from": {"id": "nixpkgs", "type": "indirect"}, "to": {"rev": 5}, "exact": true}
    ], "version": 2}"#;
    assert_eq!(get_rev_from_registry(registry, "nixpkgs"), Err(RegistryError::Invalid));
}

#[test]
fn a_broken_registry_is_an_error() {
    assert!(get_rev_from_registry("{", "nixpkgs").is_err());
    assert!(get_rev_from_registry(r#"{"version": 2}"#, "nixpkgs").is_err());
}

#[test]
fn entries_say_what_they_pin() {
    let entry = r#"{"from": {"id": "nixpkgs", "type": "indirect"}, "to": {"rev": "abc"}, "exact": true}"#;
    assert_eq!(rev_of_entry(entry, "nixpkgs"), Ok(Some("abc".to_string())));
    assert_eq!(rev_of_entry(entry, "other"), Ok(None));
    let loose = r#"{"from": {"id": "nixpkgs", "type": "indirect"}, "to": {"rev": "abc"}, "exact": 1}"#;
    assert_eq!(rev_of_entry(loose, "nixpkgs"), Ok(None));
}

#[test]
fn two_and_three_pointers() {
    let input = r#"{"a": {"b": [1, 2]}, "c": "d", "e": null}"#;
    assert_eq!(
        get_two_pointers(input, &path(&["a", "b"]), &path(&["c"])),
        Ok(("[1, 2]".to_string(), "\"d\"".to_string()))
    );
    assert_eq!(
        get_three_pointers(input, &path(&["c"]), &path(&["e"]), &path(&["a"])),
        Ok(("\"d\"".to_string(), "null".to_string(), "{\"b\": [1, 2]}".to_string()))
    );
    assert!(get_two_pointers(input, &path(&["a"]), &path(&["missing"])).is_err());
    assert!(get_two_pointers("{", &path(&["a"]), &path(&["c"])).is_err());
}

#[test]
fn a_path_that_leads_nowhere_gives_nothing() {
    let input = r#"{"a": {"b": 1}}"#;
    assert_eq!(get_opt_json(input, &path(&["a", "b"])), Ok(Some("1".to_string())));
    assert_eq!(get_opt_json(input, &path(&["a", "c"])), Ok(None));
    assert_eq!(get_opt_json(input, &path(&["x"])), Ok(None));
    assert!(matches!(get_opt_json("{\"a\": ", &path(&["a"])), Err(RegistryError::Json(_))));
}

#[test]
fn what_was_found_or_nothing() {
    assert_eq!(found_or_nothing(Ok("1".to_string()), false), Ok(Some("1".to_string())));
    assert_eq!(found_or_nothing(Err("m".to_string()), true), Ok(None));
    assert_eq!(
        found_or_nothing(Err("m".to_string()), false),
        Err(RegistryError::Json("m".to_string()))
    );
}

#[test]
fn paths_that_overlap_are_refused() {
    assert_eq!(
        get_two_pointers(r#"{"a":{"b":1,"b":2}}"#, &path(&["a"]), &path(&["a", "b"])),
        Err(RegistryError::OverlappingPaths)
    );
    assert_eq!(
        get_two_pointers(r#"{"a":{"b":1}}"#, &path(&["a", "b"]), &path(&["a"])),
        Err(RegistryError::OverlappingPaths)
    );
    assert_eq!(
        get_three_pointers(r#"{"a":1,"a":2}"#, &path(&["a"]), &path(&["a"]), &path(&["b"])),
        Err(RegistryError::OverlappingPaths)
    );
    assert_eq!(
        get_two_pointers(r#"{"a":1}"#, &path(&[]), &path(&["a"])),
        Err(RegistryError::OverlappingPaths)
    );
}

#[test]
fn paths_that_lie_apart_are_read_on_a_document_that_repeats_a_key() {
    assert_eq!(
        get_two_pointers(r#"{"a":{"b":1,"b":2},"c":3}"#, &path(&["a", "b"]), &path(&["c"])),
        Err(RegistryError::Missing)
    );
    assert!(get_two_pointers(r#"{"a":{"b":1},"a":{"c":2}}"#, &path(&["a", "b"]), &path(&["a", "c"]))
        .is_ok());
}

#[test]
fn beginnings_of_paths() {
    assert!(is_prefix_of(&path(&["a"]), &path(&["a", "b"])));
    assert!(is_prefix_of(&path(&["a", "b"]), &path(&["a", "b"])));
    assert!(is_prefix_of(&path(&[]), &path(&["a"])));
    assert!(!is_prefix_of(&path(&["a", "b"]), &path(&["a"])));
    assert!(!is_prefix_of(&path(&["a", "c"]), &path(&["a", "b"])));
    assert!(are_apart(&vec![path(&["a", "b"]), path(&["a", "c"]), path(&["b"])]));
    assert!(!are_apart(&vec![path(&["a", "b"]), path(&["c"]), path(&["a"])]));
    assert!(!are_apart(&vec![path(&["a"]), path(&["a"])]));
    assert!(are_apart(&vec![path(&[])]));
    assert!(are_apart(&vec![]));
}
