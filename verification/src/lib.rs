//! Decision logic for copying a package's source tree out of a registry, a
//! version-control repository or a local directory.
//!
//! Every function here is pure: it takes plain values and returns plain
//! values. Whoever drives the library performs the outside work (network,
//! file system, package cache) and reports what came back.
//!
//! The contracts are proved, with two exceptions in [`version`]: reading a
//! semantic version from text and writing one back are left to the `semver`
//! crate, and what those two calls return is taken on trust.

pub mod batch;
pub mod copy;
pub mod crawl;
pub mod job;
pub mod orchestrate;
pub mod resolve;
pub mod select;
pub mod version;
