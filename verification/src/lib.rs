//! Resolves, for a single file, its committed (HEAD) content and its current
//! on-disk content, so that a caller can render a two-way diff.
//!
//! The library holds the decision logic: resolving the file to an absolute
//! path, choosing the repository (discovered from the file's location, or the
//! project root as a fallback), mapping repository failures to errors, and
//! assembling the snapshot. The repository store and the filesystem are
//! capabilities: a driver performs each requested [`resolver::Action`] and
//! hands the observed [`resolver::Event`] back to the resolver.

pub mod decode;
pub mod laws;
pub mod paths;
pub mod resolver;
pub mod snapshot;
