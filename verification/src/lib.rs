//! Packaging and invocation layer for a Java-based diagram renderer.
//!
//! The library covers the bundle lifecycle: building one canonical archive
//! out of an application archive and a platform runtime distribution,
//! resolving and planning the extraction of that archive into a per-version
//! cache directory, and classifying the outcome of an invocation of the
//! extracted runtime. Filesystem writes, process spawning and network
//! transfers are left to the surrounding program; this crate holds the
//! decisions and the data transformations, each with a verified contract.

pub mod builder;
pub mod cache;
pub mod error;
pub mod invoker;
pub mod paths;
pub mod text;
pub mod zipio;

pub use builder::{
    repackage, ArchiveFormat, BundleEntry, BundleEntryKind, PlatformTarget, RepackConfig,
    SourceEntry, SourceEntryKind,
};
pub use cache::{needs_extraction, plan_extraction, ArchiveEntry, ExtractAction};
pub use error::PlantUmlError;
pub use invoker::{classify_output, execute_pipe, invocation_args, render, ProcessExit};
pub use paths::{get_bundle_paths, BundlePaths};
pub use zipio::{build_canonical_bundle, decode_runtime_archive, encode_bundle, read_bundle_entries};
