use vstd::prelude::*;

verus! {

/// Why an archive could not be unpacked.
#[derive(Debug, Clone, PartialEq, Eq)]
pub enum ExtractError {
    ZipError(String),
    TarError(String),
}

/// Failures of the download, install and launch operations.
#[derive(Debug, Clone, PartialEq, Eq)]
pub enum Error {
    DirectoryCreationError(String),
    DownloadRequestError(String),
    ArchiveExtractionError(ExtractError),
    SpawnProcessError(String),
    UnableToFindLatestVersionError,
    Io(String),
}

} // verus!
