//! Finds the version string that a packaged mod archive declares in its
//! loader metadata.

pub mod text;
pub mod archive;
pub mod manifest;
pub mod metadata;
pub mod nesting;
pub mod resolver;
pub mod laws;

pub use archive::Archive;
pub use manifest::extract_manifest_version;
pub use metadata::{extract_json_version, extract_toml_version};
pub use resolver::{accept_version, candidates, extract, resolve, Candidate, FormatKind};
pub use text::VersionError;
