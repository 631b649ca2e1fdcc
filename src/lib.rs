//! Package identifiers, recipe resolution and a content-addressed source cache.
pub mod cache;
pub mod digest;
pub mod error;
pub mod package_id;
pub mod recipe;
pub mod repository;
pub mod source;
pub mod text;

pub use digest::Digest;
pub use error::TetraError;
pub use package_id::PackageId;
pub use recipe::{Recipe, RecipeSource};
pub use source::{Checksum, Source};
pub use repository::{select_repository, ProbePaths, ProbeResults, Repository};
pub use cache::{Cache, Downloader, InsertPlan, TempFile, TetraRoot, Verdict};
