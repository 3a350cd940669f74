//! Finds the flakes behind Nix garbage collector roots, compares the locked
//! state of one of their inputs with a target and decides how an interactive
//! update of each mismatched flake proceeds.
//!
//! The library reads and decides; it touches no file and runs no command.
//! Its caller reads the files, runs the commands that the library names and
//! hands the outcomes back.
//!
//! - [`json`], [`lockfile`] and [`decode`]: lock documents and their nodes.
//! - [`target`] and [`matching`]: the target and the comparison with it.
//! - [`discover`]: the flakes behind a set of garbage collector roots.
//! - [`windower`] and [`flake_nix`]: the proposed rewrite and its diff.
//! - [`command`], [`display`] and [`update`]: the prompt and the machine
//!   behind it.
//! - [`registry`] and [`flake_ref`]: the flake registry and flake
//!   references.
//! - [`text`]: helpers for strings.

pub mod command;
pub mod decode;
pub mod discover;
pub mod display;
pub mod flake_nix;
pub mod flake_ref;
pub mod json;
pub mod lockfile;
pub mod matching;
pub mod registry;
pub mod target;
pub mod text;
pub mod update;
pub mod windower;
