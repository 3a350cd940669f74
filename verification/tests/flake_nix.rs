use flake_gcroots::flake_nix::{
    comment_pattern, edit_request, escape_text, is_meta, has_commented_input, replace_flake_input_url, EditError,
    EditOutcome, EditRequest,
};
use flake_gcroots::windower::{print_diff, DiffLine};

const FLAKE_NIX: &str = r#"{
  description = "example";

  inputs.nixpkgs.url = "github:NixOS/nixpkgs/aaa";
  inputs.utils.url = "github:numtide/flake-utils";

  outputs = { self, nixpkgs, utils }: { };
}
"#;

/// Hands a request to the editor of Nix files, as the caller of the library
/// does.
fn edit(contents: &str, request: &EditRequest) -> EditOutcome {
    match nix_editor::write::write(contents, &request.path, &request.value) {
        Ok(text) => EditOutcome::Edited(text),
        Err(error) => EditOutcome::Refused(error.to_string()),
    }
}

fn replaced(new_flake_ref: &str, contents: &str, flake_id: &str) -> Result<String, EditError> {
    replace_flake_input_url(edit(contents, &edit_request(new_flake_ref, flake_id)))
}

#[test]
fn the_request_names_the_url_of_the_input() {
    assert_eq!(
        edit_request("github:NixOS/nixpkgs/bbb", "nixpkgs"),
        EditRequest {
            path: "inputs.nixpkgs.url".to_string(),
            value: "\"github:NixOS/nixpkgs/bbb\"".to_string(),
        }
    );
    assert_eq!(edit_request("a\"b\\c", "x").value, r#""a\"b\\c""#);
    assert_eq!(edit_request("", "").path, "inputs..url");
}

#[test]
fn the_answer_of_the_editor_decides() {
    assert_eq!(replace_flake_input_url(EditOutcome::Edited("t".to_string())), Ok("t".to_string()));
    assert_eq!(
        replace_flake_input_url(EditOutcome::Refused("m".to_string())),
        Err(EditError::InvalidFlakeNix("m".to_string()))
    );
    assert_eq!(replace_flake_input_url(EditOutcome::Crashed), Err(EditError::EditorCrashed));
}

#[test]
fn replaces_the_url_of_the_input() {
    let new = replaced("github:NixOS/nixpkgs/bbb", FLAKE_NIX, "nixpkgs").unwrap();
    assert_eq!(new, FLAKE_NIX.replace("nixpkgs/aaa", "nixpkgs/bbb"));
}

#[test]
fn quotes_the_url() {
    let new = replaced("a\"b", FLAKE_NIX, "nixpkgs").unwrap();
    assert!(new.contains(r#"inputs.nixpkgs.url = "a\"b";"#), "{new}");
}

#[test]
fn the_same_url_changes_nothing() {
    let new = replaced("github:NixOS/nixpkgs/aaa", FLAKE_NIX, "nixpkgs").unwrap();
    assert_eq!(new, FLAKE_NIX);
    assert_eq!(print_diff(FLAKE_NIX, &new, 3), vec![]);
}

#[test]
fn the_diff_names_the_old_and_the_new_url() {
    let new = replaced("github:NixOS/nixpkgs/bbb", FLAKE_NIX, "nixpkgs").unwrap();
    let diff = print_diff(FLAKE_NIX, &new, 0);
    assert_eq!(
        diff,
        vec![
            DiffLine::Removed(r#"  inputs.nixpkgs.url = "github:NixOS/nixpkgs/aaa";"#.to_string()),
            DiffLine::Added(r#"  inputs.nixpkgs.url = "github:NixOS/nixpkgs/bbb";"#.to_string()),
        ]
    );
    let wider = print_diff(FLAKE_NIX, &new, 1);
    assert_eq!(wider.len(), 4);
    assert_eq!(wider[0], DiffLine::Unchanged(String::new()));
}

#[test]
fn every_character_with_a_meaning_is_escaped() {
    assert_eq!(
        comment_pattern(r"\.+*?()|[]{}^$#&-~"),
        format!(
            "{}{}{}",
            r"#[ \t\n\r]*(inputs\.)?",
            r"\\\.\+\*\?\(\)\|\[\]\{\}\^\$\#\&\-\~",
            r"(\.url)?[ \t\n\r]*="
        )
    );
    assert_eq!(comment_pattern("a%/!\"e_"), r#"#[ \t\n\r]*(inputs\.)?a%/!"e_(\.url)?[ \t\n\r]*="#);
}

#[test]
fn the_pattern_escapes_the_name() {
    assert_eq!(comment_pattern("nixpkgs"), r"#[ \t\n\r]*(inputs\.)?nixpkgs(\.url)?[ \t\n\r]*=");
    assert_eq!(comment_pattern("a.b"), r"#[ \t\n\r]*(inputs\.)?a\.b(\.url)?[ \t\n\r]*=");
}

#[test]
fn finds_a_commented_input() {
    assert_eq!(has_commented_input("nixpkgs", "# nixpkgs.url = \"x\";"), Ok(true));
    assert_eq!(has_commented_input("nixpkgs", "#inputs.nixpkgs.url=\"x\";"), Ok(true));
    assert_eq!(has_commented_input("nixpkgs", "  #\tinputs.nixpkgs = {"), Ok(true));
    assert_eq!(has_commented_input("nixpkgs", "#\nnixpkgs ="), Ok(true));
    assert_eq!(has_commented_input("nixpkgs", FLAKE_NIX), Ok(false));
    assert_eq!(has_commented_input("nixpkgs", "# nixpkgs-stable.url = \"x\";"), Ok(false));
    assert_eq!(has_commented_input("nixpkgs", "# about nixpkgs"), Ok(false));
    assert_eq!(has_commented_input("a.b", "# axb.url = 1"), Ok(false));
    assert_eq!(has_commented_input("a.b", "# a.b.url = 1"), Ok(true));
}

#[test]
fn a_name_that_makes_too_large_a_pattern_is_refused() {
    let name = "a".repeat(4_000_000);
    assert!(has_commented_input(&name, "# nixpkgs.url = 1").is_err());
}

#[test]
fn escapes_as_the_regex_crate_does() {
    for text in ["", "nixpkgs", "a.b", r"\.+*?()|[]{}^$#&-~", "ä-ö", "%/!\"e_ ", "a\\b\nc"] {
        assert_eq!(escape_text(text), regex::escape(text), "{text}");
    }
    for c in ['\\', '.', '+', '*', '?', '(', ')', '|', '[', ']', '{', '}', '^', '$', '#', '&', '-', '~'] {
        assert!(is_meta(c), "{c}");
    }
    for c in ['%', '/', '!', '"', 'e', ' ', '_', 'ä'] {
        assert!(!is_meta(c), "{c}");
    }
}
