//! Core of a container-deployment project tool: a project directory holds pod
//! definitions (`pods/*.yml`) and named environment overrides
//! (`pods/overrides/<name>/`); the library discovers them, resolves the
//! project's name, and plans the per-pod pipeline that merges, rewrites and
//! writes each pod either into the working tree (`output`) or into a fresh
//! standalone tree (`export`).
//!
//! The library computes on plain values: directory listings arrive as
//! [`discovery::DirEntry`] values, and the pipeline is a step machine that an
//! unverified shell drives, performing the filesystem and document work
//! between steps.

pub mod discovery;
pub mod model;
pub mod paths;
pub mod pipeline;
pub mod project;
