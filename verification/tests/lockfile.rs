use flake_gcroots::decode::load_lockfile_input;
use flake_gcroots::json::{parse_json, Json, JsonMember, JsonNumber};
use flake_gcroots::lockfile::{
    GitServiceType, LockError, Locked, Lockfile, LockfileNode, Original, OriginalExtra, Version,
};

const LOCK: &str = r#"{
  "nodes": {
    "nixpkgs": {
      "locked": {
        "lastModified": 1700000000,
        "narHash": "sha256-abc",
        "owner": "NixOS",
        "repo": "nixpkgs",
        "rev": "aaa",
        "type": "github"
      },
      "original": {
        "owner": "NixOS",
        "ref": "nixos-unstable",
        "repo": "nixpkgs",
        "type": "github"
      }
    },
    "root": {
      "inputs": {
        "nixpkgs": "nixpkgs",
        "followed": ["nixpkgs", "x"]
      }
    }
  },
  "root": "root",
  "version": 7
}"#;

fn json(text: &str) -> Json {
    parse_json(text.as_bytes()).unwrap()
}

fn string_member(key: &str, value: &str) -> JsonMember {
    JsonMember { key: key.to_string(), value: Json::String(value.to_string()) }
}

#[test]
fn decodes_version_seven() {
    let lockfile = Lockfile::decode(LOCK.as_bytes()).unwrap();
    let Lockfile::V7 { version, root_id, raw_nodes } = lockfile;
    assert_eq!(version.number(), 7);
    assert_eq!(root_id, "root");
    assert_eq!(raw_nodes.len(), 2);
}

#[test]
fn refuses_other_versions() {
    for version in ["6", "8", "0", "7.0", "-7", "\"7\"", "null", "263"] {
        let text = format!(r#"{{"nodes": {{}}, "root": "root", "version": {version}}}"#);
        let r = Lockfile::decode(text.as_bytes());
        assert!(matches!(r, Err(LockError::Format(_))), "version {version}");
    }
}

#[test]
fn refuses_missing_members() {
    for text in [
        r#"{"root": "root", "version": 7}"#,
        r#"{"nodes": {}, "version": 7}"#,
        r#"{"nodes": {}, "root": "root"}"#,
        r#"{"nodes": [], "root": "root", "version": 7}"#,
        r#"{"nodes": {}, "root": 1, "version": 7}"#,
        r#"[7, "root", {}]"#,
        "7",
    ] {
        assert!(matches!(Lockfile::decode(text.as_bytes()), Err(LockError::Format(_))), "{text}");
    }
}

#[test]
fn refuses_what_is_no_json() {
    assert!(matches!(Lockfile::decode(b"{"), Err(LockError::Format(_))));
    assert!(matches!(Lockfile::decode(b""), Err(LockError::Format(_))));
    assert!(matches!(Lockfile::decode(b"{} trailing"), Err(LockError::Format(_))));
}

#[test]
fn extracts_the_input() {
    let node = load_lockfile_input(LOCK.as_bytes(), "nixpkgs").unwrap();
    assert_eq!(
        node.locked,
        Locked::GitService {
            type_: GitServiceType::GitHub,
            owner: "NixOS".to_string(),
            repo: "nixpkgs".to_string(),
            rev: "aaa".to_string(),
            last_modified: Some(1700000000),
            host: None,
        }
    );
    assert_eq!(
        node.original.inner,
        Original::GitService {
            type_: GitServiceType::GitHub,
            ref_: Some("nixos-unstable".to_string()),
        }
    );
    assert_eq!(
        node.original.extra,
        vec![string_member("owner", "NixOS"), string_member("repo", "nixpkgs")]
    );
}

#[test]
fn missing_root_node_is_missing_data() {
    let text = r#"{"nodes": {"nixpkgs": {}}, "root": "root", "version": 7}"#;
    assert_eq!(load_lockfile_input(text.as_bytes(), "nixpkgs"), Err(LockError::MissingData));
}

#[test]
fn missing_input_key_is_missing_data() {
    assert_eq!(load_lockfile_input(LOCK.as_bytes(), "home-manager"), Err(LockError::MissingData));
}

#[test]
fn followed_input_is_missing_data() {
    assert_eq!(load_lockfile_input(LOCK.as_bytes(), "followed"), Err(LockError::MissingData));
}

#[test]
fn missing_inputs_is_missing_data() {
    let text = r#"{"nodes": {"root": {}}, "root": "root", "version": 7}"#;
    assert_eq!(load_lockfile_input(text.as_bytes(), "nixpkgs"), Err(LockError::MissingData));
}

#[test]
fn dangling_input_is_missing_data() {
    let text = r#"{"nodes": {"root": {"inputs": {"a": "b"}}}, "root": "root", "version": 7}"#;
    assert_eq!(load_lockfile_input(text.as_bytes(), "a"), Err(LockError::MissingData));
}

#[test]
fn malformed_node_is_a_format_error() {
    let text = r#"{"nodes": {"root": {"inputs": {"a": "b"}}, "b": {"locked": {"type": "path"}}},
        "root": "root", "version": 7}"#;
    assert!(matches!(load_lockfile_input(text.as_bytes(), "a"), Err(LockError::Format(_))));
}

#[test]
fn decodes_each_locked_kind() {
    assert_eq!(
        Locked::from_json(&json(r#"{"type": "path", "path": "/x", "lastModified": 5}"#)),
        Some(Locked::Path { path: "/x".to_string(), rev: None, last_modified: 5 })
    );
    assert_eq!(
        Locked::from_json(&json(r#"{"type": "tarball", "url": "https://x/y.tar.gz", "rev": "r"}"#)),
        Some(Locked::Tarball {
            url: "https://x/y.tar.gz".to_string(),
            rev: Some("r".to_string()),
            last_modified: None
        })
    );
    assert_eq!(
        Locked::from_json(&json(
            r#"{"type": "git", "ref": "main", "rev": "r", "url": "https://x", "shallow": true,
                "lastModified": null}"#
        )),
        Some(Locked::Git {
            last_modified: None,
            ref_: "main".to_string(),
            rev: "r".to_string(),
            shallow: Some(true),
            url: "https://x".to_string(),
        })
    );
    assert_eq!(
        Locked::from_json(&json(
            r#"{"type": "sourcehut", "owner": "~o", "repo": "r", "rev": "v", "host": "h"}"#
        )),
        Some(Locked::GitService {
            type_: GitServiceType::Sourcehut,
            owner: "~o".to_string(),
            repo: "r".to_string(),
            rev: "v".to_string(),
            last_modified: None,
            host: Some("h".to_string()),
        })
    );
    assert_eq!(
        Locked::from_json(&json(r#"{"type": "hg", "url": "https://x", "lastModified": 9}"#)),
        Some(Locked::Other {
            type_: "hg".to_string(),
            rev: None,
            url: Some("https://x".to_string()),
            last_modified: Some(9)
        })
    );
}

#[test]
fn a_future_kind_is_accepted() {
    assert_eq!(
        Locked::from_json(&json(r#"{"type": "fossil", "checkout": "abc", "depth": [1, 2]}"#)),
        Some(Locked::Other { type_: "fossil".to_string(), rev: None, url: None, last_modified: None })
    );
}

#[test]
fn a_known_kind_with_unfit_members_falls_back() {
    assert_eq!(
        Locked::from_json(&json(r#"{"type": "path", "path": "/x"}"#)),
        Some(Locked::Other { type_: "path".to_string(), rev: None, url: None, last_modified: None })
    );
    assert_eq!(
        Locked::from_json(&json(r#"{"type": "github", "owner": "o", "rev": "r"}"#)),
        Some(Locked::Other {
            type_: "github".to_string(),
            rev: Some("r".to_string()),
            url: None,
            last_modified: None
        })
    );
}

#[test]
fn locked_without_a_fitting_shape_is_refused() {
    assert_eq!(Locked::from_json(&json(r#"{"path": "/x"}"#)), None);
    assert_eq!(Locked::from_json(&json(r#"{"type": 3}"#)), None);
    assert_eq!(Locked::from_json(&json(r#"{"type": "x", "rev": 3}"#)), None);
    assert_eq!(Locked::from_json(&json(r#"{"type": "x", "lastModified": -1}"#)), None);
    assert_eq!(Locked::from_json(&json(r#"{"type": "x", "lastModified": 1.5}"#)), None);
    assert_eq!(Locked::from_json(&json(r#""path""#)), None);
}

#[test]
fn decodes_each_original_kind() {
    assert_eq!(
        Original::from_json(&json(r#"{"type": "indirect", "id": "nixpkgs"}"#)),
        Some(Original::Indirect { id: "nixpkgs".to_string(), rev: None, ref_: None })
    );
    assert_eq!(Original::from_json(&json(r#"{"type": "path", "path": "/x"}"#)), Some(Original::Path));
    assert_eq!(Original::from_json(&json(r#"{"type": "tarball"}"#)), Some(Original::Tarball {}));
    assert_eq!(Original::from_json(&json(r#"{"type": "file"}"#)), Some(Original::File));
    assert_eq!(
        Original::from_json(&json(r#"{"type": "git", "ref": "main", "url": "u"}"#)),
        Some(Original::Git { ref_: Some("main".to_string()) })
    );
    assert_eq!(Original::from_json(&json(r#"{"type": "mercurial"}"#)), Some(Original::Mercurial));
    assert_eq!(
        Original::from_json(&json(r#"{"type": "gitlab", "owner": "o", "repo": "r"}"#)),
        Some(Original::GitService { type_: GitServiceType::GitLab, ref_: None })
    );
    assert_eq!(
        Original::from_json(&json(r#"{"type": "fossil"}"#)),
        Some(Original::Other { type_: "fossil".to_string() })
    );
    assert_eq!(Original::from_json(&json(r#"{"id": "nixpkgs"}"#)), None);
}

#[test]
fn keeps_unknown_members_of_the_original() {
    let original = OriginalExtra::from_json(&json(
        r#"{"type": "indirect", "id": "nixpkgs", "ref": "r", "rev": null, "dir": "sub", "n": 3}"#,
    ))
    .unwrap();
    assert_eq!(
        original.inner,
        Original::Indirect { id: "nixpkgs".to_string(), rev: None, ref_: Some("r".to_string()) }
    );
    assert_eq!(
        original.extra,
        vec![
            string_member("dir", "sub"),
            JsonMember {
                key: "n".to_string(),
                value: Json::Number(JsonNumber { unsigned: Some(3), text: "3".to_string() })
            },
        ]
    );
    assert_eq!(OriginalExtra::from_json(&json(r#""indirect""#)), None);
}

#[test]
fn accessors_follow_the_kind() {
    let git = Locked::Git {
        last_modified: Some(1),
        ref_: "main".to_string(),
        rev: "r".to_string(),
        shallow: None,
        url: "u".to_string(),
    };
    assert_eq!(git.rev(), Some("r"));
    assert_eq!(git.url_no_git(), None);
    assert_eq!(git.last_modified(), Some(1));
    let service = Locked::GitService {
        type_: GitServiceType::GitHub,
        owner: "o".to_string(),
        repo: "r".to_string(),
        rev: "v".to_string(),
        last_modified: None,
        host: None,
    };
    assert_eq!(service.rev(), Some("v"));
    assert_eq!(service.url_no_git(), None);
    assert_eq!(service.last_modified(), None);
    let tarball = Locked::Tarball { url: "u".to_string(), rev: None, last_modified: Some(2) };
    assert_eq!(tarball.rev(), None);
    assert_eq!(tarball.url_no_git(), Some("u"));
    assert_eq!(tarball.last_modified(), Some(2));
    let path = Locked::Path { path: "/x".to_string(), rev: Some("r".to_string()), last_modified: 3 };
    assert_eq!(path.rev(), Some("r"));
    assert_eq!(path.url_no_git(), None);
    assert_eq!(path.last_modified(), Some(3));
    let other = Locked::Other {
        type_: "x".to_string(),
        rev: None,
        url: Some("u".to_string()),
        last_modified: None,
    };
    assert_eq!(other.rev(), None);
    assert_eq!(other.url_no_git(), None);
    assert_eq!(other.last_modified(), None);
}

#[test]
fn only_three_kinds_have_a_ref() {
    let r = Some("r".to_string());
    assert_eq!(
        Original::Indirect { id: "i".to_string(), rev: None, ref_: r.clone() }.ref_(),
        Some("r")
    );
    assert_eq!(Original::Git { ref_: r.clone() }.ref_(), Some("r"));
    assert_eq!(
        Original::GitService { type_: GitServiceType::GitHub, ref_: r.clone() }.ref_(),
        Some("r")
    );
    assert_eq!(Original::Git { ref_: None }.ref_(), None);
    assert_eq!(Original::Path.ref_(), None);
    assert_eq!(Original::Tarball {}.ref_(), None);
    assert_eq!(Original::File.ref_(), None);
    assert_eq!(Original::Mercurial.ref_(), None);
    assert_eq!(Original::Other { type_: "x".to_string() }.ref_(), None);
}

#[test]
fn version_accepts_its_number_only() {
    assert!(Version::<7>::from_number(7).is_some());
    assert!(Version::<7>::from_number(8).is_none());
    assert!(Version::<7>::from_number(263).is_none());
    assert_eq!(Version::<2>::from_number(2).unwrap().number(), 2);
}

#[test]
fn node_needs_locked_and_original() {
    assert_eq!(LockfileNode::from_json(&json(r#"{"locked": {"type": "x"}}"#)), None);
    assert_eq!(LockfileNode::from_json(&json(r#"{"original": {"type": "x"}}"#)), None);
    assert!(LockfileNode::from_json(&json(
        r#"{"locked": {"type": "x"}, "original": {"type": "x"}, "flake": false}"#
    ))
    .is_some());
}

#[test]
fn of_two_nodes_with_one_name_the_first_is_kept() {
    let node = |rev: &str| JsonMember {
        key: "n".to_string(),
        value: json(&format!(
            r#"{{"locked": {{"type": "x", "rev": "{rev}"}}, "original": {{"type": "x"}}}}"#
        )),
    };
    let document = Json::Object(vec![
        JsonMember { key: "version".to_string(), value: json("7") },
        JsonMember { key: "root".to_string(), value: json("\"root\"") },
        JsonMember {
            key: "nodes".to_string(),
            value: Json::Object(vec![
                JsonMember { key: "root".to_string(), value: json(r#"{"inputs": {"i": "n"}}"#) },
                node("first"),
                node("second"),
            ]),
        },
    ]);
    let lockfile = Lockfile::from_json(&document).unwrap();
    let Lockfile::V7 { raw_nodes, .. } = &lockfile;
    assert_eq!(raw_nodes.len(), 2);
    assert_eq!(lockfile.extract_input("i").unwrap().locked.rev(), Some("first"));
}

#[test]
fn of_two_kept_members_with_one_key_the_first_is_kept() {
    let original = OriginalExtra::from_json(&Json::Object(vec![
        string_member("type", "git"),
        string_member("url", "first"),
        string_member("url", "second"),
        string_member("ref", "main"),
    ]))
    .unwrap();
    assert_eq!(original.inner, Original::Git { ref_: Some("main".to_string()) });
    assert_eq!(original.extra, vec![string_member("url", "first")]);
}
