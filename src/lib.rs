//! Acquisition of game-release metadata: the decisions of fetching a version
//! manifest, a per-version document, or a version document packed in an
//! archive, with their validation and error classification.
pub mod archive;
pub mod config;
pub mod error;
pub mod fetch;
pub mod model;

pub use config::{default_download_url, manifest_url};
pub use error::{ArchiveProblem, Channel, MetadataError, Problem};
