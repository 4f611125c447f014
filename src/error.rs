use vstd::prelude::*;

verus! {

/// A release channel that a manifest names its latest release for.
#[derive(Clone, Copy, Debug, PartialEq, Eq)]
pub enum Channel {
    Release,
    Snapshot,
}

/// A semantic defect of a document that parsed.
#[derive(Clone, Debug, PartialEq, Eq)]
pub enum Problem {
    /// The manifest has no latest-release pointer for the channel.
    MissingLatest(Channel),
    /// The channel's latest-release pointer names no listed release.
    UnknownLatest(Channel),
    /// The release summary at this position has no absolute http(s) URL.
    InvalidReleaseUrl(usize),
    /// The version document has an empty identifier.
    MissingId,
    /// The version document has an empty main class.
    MissingMainClass,
}

/// Why an archive yielded no version document.
#[derive(Clone, Debug, PartialEq, Eq)]
pub enum ArchiveProblem {
    /// The stored file could not be read as an archive.
    Unreadable(String),
    /// No entry of the archive has a `.json` name.
    DocumentNotFound,
}

/// The terminal failure of one fetch, with the URL it concerned.
#[derive(Clone, Debug, PartialEq, Eq)]
pub enum MetadataError {
    /// The request or the reading of its body did not complete.
    Transport { url: String, message: String },
    /// The response carried a status outside 200..=299.
    HttpStatus { url: String, status: u16 },
    /// The body did not parse; `body` is the text exactly as received.
    MalformedBody { url: String, body: String, message: String },
    /// The body parsed but the document is not semantically valid.
    Validation { url: String, problem: Problem },
    /// The archive could not be written to or read from local storage.
    ArchiveIo { url: String, message: String },
    /// The archive could not be opened, or holds no version document.
    ArchiveFormat { url: String, problem: ArchiveProblem },
}

} // verus!
