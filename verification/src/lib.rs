//! Rebuilds installable Debian-style package archives from a running
//! system's installed-file state.
//!
//! The library holds the decision logic of the rebuild: in-archive path
//! normalization, discovery of per-package metadata files under the
//! administrative database's naming convention, the byte-exact
//! composition of the output container, and the step-by-step
//! orchestration of one package's build, including the optional fold of
//! the finished archive into a shared multi-package bundle. Filesystem
//! and archive-stream effects are carried out by the caller, which drives
//! the orchestration one step at a time and reports each outcome back.

pub mod builder;
pub mod container;
pub mod metadata;
pub mod pathname;
pub mod sort;
