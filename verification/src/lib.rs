//! Core logic of a revision-history viewer: given a tracked file, list its
//! commits oldest-first, fetch its content as of a revision, and fetch a
//! zero-context unified diff between two revisions.
//!
//! The library never spawns the version-control tool itself.  For each
//! operation it builds the exact subprocess invocation (a [`provider::GitRequest`])
//! and interprets the captured outcome of running it (a [`provider::ToolOutcome`]),
//! so that every decision — argument construction, output splitting and
//! ordering, error classification — is verified, while the process spawn
//! stays in the thin unverified shell around the library.

pub mod paths;
pub mod text;
pub mod provider;
pub mod menu;
