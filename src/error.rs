use vstd::prelude::*;

verus! {

/// Each way in which finding, fetching or caching a package can fail.
#[derive(Debug, Clone, Copy, PartialEq, Eq, Structural)]
pub enum TetraError {
    /// No repository has the identifier's repository id.
    RepositoryNotFound,
    /// The package name is empty, or has no directory in the repository.
    PackageNotFound,
    /// The package has no directory for the version.
    VersionNotFound,
    /// The version has no directory for the flavours, in their order.
    FlavourCombinationNotFound,
    /// An architecture was asked for that the package does not publish.
    ArchitectureNotSupplied,
    /// Neither the default-architecture recipe nor the plain one exists.
    RecipeNotFound,
    /// A recipe or repository document could not be read.
    RecipeParseError,
    /// A source's checksum is not the hex text of a digest.
    InvalidChecksum,
    /// A blob does not hash to the digest it is stored under.
    ChecksumMismatch,
    /// A download failed.
    TransportError,
    /// Some other file-system operation failed.
    IOError,
}

impl TetraError {
    /// A short description of the failure.
    pub fn describe(&self) -> (r: &'static str) {
        match self {
            TetraError::RepositoryNotFound => "repository not found",
            TetraError::PackageNotFound => "package not found",
            TetraError::VersionNotFound => "package version not found",
            TetraError::FlavourCombinationNotFound => "flavour combination not found",
            TetraError::ArchitectureNotSupplied => "architecture not supplied by package",
            TetraError::RecipeNotFound => "package recipe not found",
            TetraError::RecipeParseError => "document could not be parsed",
            TetraError::InvalidChecksum => "checksum is not a valid digest",
            TetraError::ChecksumMismatch => "checksum mismatch",
            TetraError::TransportError => "transfer failed",
            TetraError::IOError => "file-system operation failed",
        }
    }
}

} // verus!
