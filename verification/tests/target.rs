use flake_gcroots::json::{Json, JsonMember};
use flake_gcroots::lockfile::{GitServiceType, Original, OriginalExtra};
use flake_gcroots::lockfile::LockError;
use flake_gcroots::matching::{MatchTarget, NixFlakeMetadata};
use flake_gcroots::target::{
    action_command, commit_message, flake_ref_url_command, get_flake_ref_metadata,
    get_flake_ref_url, input_target, metadata_command, resolve_target, split_target, CommandLine,
    InputError, Resolution, TargetError,
};
use flake_gcroots::update::Action;

fn command(program: &str, args: &[&str]) -> CommandLine {
    CommandLine { program: program.to_string(), args: args.iter().map(|a| a.to_string()).collect() }
}

#[test]
fn a_target_without_a_separator_is_a_flake_reference() {
    assert_eq!(
        split_target("github:NixOS/nixpkgs/nixos-unstable"),
        ("github:NixOS/nixpkgs/nixos-unstable".to_string(), None)
    );
    assert_eq!(split_target(""), (String::new(), None));
}

#[test]
fn the_input_stands_behind_the_last_separator() {
    assert_eq!(
        split_target("./my-nixos-config#nixpkgs"),
        ("./my-nixos-config".to_string(), Some("nixpkgs".to_string()))
    );
    assert_eq!(split_target("a#b#c"), ("a#b".to_string(), Some("c".to_string())));
    assert_eq!(split_target("a#"), ("a".to_string(), Some(String::new())));
    assert_eq!(split_target("#b"), (String::new(), Some("b".to_string())));
    assert_eq!(split_target("ä#ö"), ("ä".to_string(), Some("ö".to_string())));
}

#[test]
fn the_commands_that_describe_the_target() {
    assert_eq!(
        metadata_command("github:NixOS/nixpkgs"),
        command("nix", &["flake", "metadata", "--json", "--", "github:NixOS/nixpkgs"])
    );
    assert_eq!(
        flake_ref_url_command("{}"),
        command(
            "nix-instantiate",
            &[
                "--eval",
                "--expr",
                "{ json }: builtins.flakeRefToString (builtins.fromJSON json)",
                "--raw",
                "--argstr",
                "json",
                "{}"
            ]
        )
    );
}

#[test]
fn the_commands_of_the_update() {
    assert_eq!(
        action_command(Action::RunNixFlakeUpdate, "nixpkgs"),
        Some(command("nix", &["flake", "update", "nixpkgs"]))
    );
    assert_eq!(action_command(Action::RunNixFlakeLock, "nixpkgs"), Some(command("nix", &["flake", "lock"])));
    assert_eq!(
        action_command(Action::RunDirenvReload, "nixpkgs"),
        Some(command("direnv", &["exec", ".", "true"]))
    );
    assert_eq!(action_command(Action::GitLog, "nixpkgs"), Some(command("git", &["log", "-0"])));
    assert_eq!(
        action_command(Action::GitDiffCached, "nixpkgs"),
        Some(command("git", &["diff", "--quiet", "--cached", "--exit-code"]))
    );
    assert_eq!(
        action_command(Action::GitAdd, "nixpkgs"),
        Some(command("git", &["add", "flake.nix", "flake.lock"]))
    );
    assert_eq!(
        action_command(Action::GitCommit, "nixpkgs"),
        Some(command("git", &["commit", "-m", "chore: bump flake input nixpkgs"]))
    );
    for action in [
        Action::Display,
        Action::ReadCommand,
        Action::WriteFlakeNix,
        Action::LaunchEditor,
        Action::LaunchShell,
        Action::DeleteGcroots,
        Action::AskRefreshDirenv,
        Action::AskCommit { is_empty: false, stage_is_dirty: true },
        Action::Advance,
        Action::GiveUp,
    ] {
        assert_eq!(action_command(action, "nixpkgs"), None);
    }
    assert_eq!(commit_message("x"), "chore: bump flake input x");
}

#[test]
fn the_json_of_a_reference_keeps_what_was_beside_it() {
    let original = OriginalExtra {
        inner: Original::GitService { type_: GitServiceType::GitHub, ref_: Some("main".to_string()) },
        extra: vec![
            JsonMember { key: "owner".to_string(), value: Json::String("NixOS".to_string()) },
            JsonMember { key: "repo".to_string(), value: Json::String("nixpkgs".to_string()) },
        ],
    };
    assert_eq!(
        original.to_json_text().unwrap(),
        r#"{"owner":"NixOS","ref":"main","repo":"nixpkgs","type":"github"}"#
    );
}

#[test]
fn the_json_of_each_kind_of_reference() {
    let text = |inner: Original| OriginalExtra { inner, extra: vec![] }.to_json_text().unwrap();
    assert_eq!(
        text(Original::Indirect { id: "nixpkgs".to_string(), rev: None, ref_: Some("r".to_string()) }),
        r#"{"id":"nixpkgs","ref":"r","rev":null,"type":"indirect"}"#
    );
    assert_eq!(text(Original::Path), r#"{"type":"path"}"#);
    assert_eq!(text(Original::Tarball {}), r#"{"type":"tarball"}"#);
    assert_eq!(text(Original::File), r#"{"type":"file"}"#);
    assert_eq!(text(Original::Git { ref_: None }), r#"{"ref":null,"type":"git"}"#);
    assert_eq!(text(Original::Mercurial), r#"{"type":"mercurial"}"#);
    assert_eq!(
        text(Original::GitService { type_: GitServiceType::Sourcehut, ref_: None }),
        r#"{"ref":null,"type":"sourcehut"}"#
    );
    assert_eq!(text(Original::Other { type_: "fossil".to_string() }), r#"{"type":"fossil"}"#);
}

#[test]
fn the_members_of_a_reference_begin_with_its_type() {
    let original = OriginalExtra {
        inner: Original::Git { ref_: Some("main".to_string()) },
        extra: vec![JsonMember { key: "url".to_string(), value: Json::String("u".to_string()) }],
    };
    assert_eq!(
        original.to_json(),
        Json::Object(vec![
            JsonMember { key: "type".to_string(), value: Json::String("git".to_string()) },
            JsonMember { key: "ref".to_string(), value: Json::String("main".to_string()) },
            JsonMember { key: "url".to_string(), value: Json::String("u".to_string()) },
        ])
    );
}

#[test]
fn a_reference_reads_back_from_its_json() {
    let json = flake_gcroots::json::parse_json(
        br#"{"type": "git", "ref": "main", "url": "https://x", "shallow": true}"#,
    )
    .unwrap();
    let original = OriginalExtra::from_json(&json).unwrap();
    let again = OriginalExtra::from_json(&original.to_json()).unwrap();
    assert_eq!(again, original);
}

#[test]
fn reads_what_the_commands_printed() {
    assert_eq!(get_flake_ref_url(true, b"github:a/b".to_vec()), Ok("github:a/b".to_string()));
    assert_eq!(get_flake_ref_url(false, b"github:a/b".to_vec()), Err(TargetError::CommandFailed));
    assert_eq!(get_flake_ref_url(true, vec![0xff]), Err(TargetError::InvalidUtf8));
    assert_eq!(get_flake_ref_metadata(false, b"{}"), Err(TargetError::CommandFailed));
    assert!(matches!(get_flake_ref_metadata(true, b"{}"), Err(TargetError::Format(_))));
    assert!(get_flake_ref_metadata(
        true,
        br#"{"locked": {"type": "path", "path": "/x", "lastModified": 1},
             "locks": {"nodes": {}, "root": "root", "version": 7},
             "resolved": {"type": "path", "path": "/x"},
             "resolvedUrl": "path:/x"}"#
    )
    .is_ok());
}

const METADATA: &str = r#"{
  "locked": {"type": "path", "path": "/config", "lastModified": 1},
  "locks": {"nodes": {
      "nixpkgs_2": {
        "locked": {"type": "github", "owner": "NixOS", "repo": "nixpkgs", "rev": "bbb"},
        "original": {"type": "github", "owner": "NixOS", "repo": "nixpkgs", "ref": "nixos-unstable"}
      },
      "broken": {"locked": {"type": "x"}},
      "root": {"inputs": {"nixpkgs": "nixpkgs_2", "broken": "broken"}}
    }, "root": "root", "version": 7},
  "resolved": {"type": "path", "path": "/config"},
  "resolvedUrl": "path:/config"
}"#;

fn metadata() -> NixFlakeMetadata {
    NixFlakeMetadata::decode(METADATA.as_bytes()).unwrap()
}

#[test]
fn a_flake_is_its_own_target() {
    let Ok(Resolution::Resolved(target)) = resolve_target(metadata(), None) else {
        panic!("not resolved")
    };
    assert_eq!(target, MatchTarget::FlakeMetadata(metadata()));
    assert_eq!(target.flake_ref_url(), "path:/config");
}

#[test]
fn an_input_needs_its_url() {
    let Ok(Resolution::NeedsUrl { input, json }) = resolve_target(metadata(), Some("nixpkgs"))
    else {
        panic!("no input")
    };
    assert_eq!(input.locked.rev(), Some("bbb"));
    assert_eq!(
        json,
        r#"{"owner":"NixOS","ref":"nixos-unstable","repo":"nixpkgs","type":"github"}"#
    );
    let target = input_target(input, "github:NixOS/nixpkgs/nixos-unstable".to_string());
    assert_eq!(target.flake_ref_url(), "github:NixOS/nixpkgs/nixos-unstable");
    assert_eq!(target.original().ref_(), Some("nixos-unstable"));
}

#[test]
fn an_input_that_is_not_there_is_no_target() {
    assert_eq!(
        resolve_target(metadata(), Some("home-manager")),
        Err(InputError::Lock(LockError::MissingData))
    );
    assert!(matches!(
        resolve_target(metadata(), Some("broken")),
        Err(InputError::Lock(LockError::Format(_)))
    ));
}
