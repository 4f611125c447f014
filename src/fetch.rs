use vstd::prelude::*;

use crate::archive::{
    is_document_name,
    lemma_first_document,
    archive_file_name,
    archive_name_for,
    count_documents,
    first_document,
    select_document,
};
use crate::error::{ArchiveProblem, MetadataError};
use crate::model::{
    find_manifest_problem,
    find_version_problem,
    manifest_problem,
    version_problem,
    VersionDocument,
    VersionManifest,
};

verus! {

/// What a fetch retrieves.
#[derive(Clone, Copy, Debug, PartialEq, Eq)]
pub enum Target {
    /// The top-level version manifest.
    Manifest,
    /// A version document published on its own.
    Version,
    /// A version document packed in an archive.
    ZippedVersion,
}

/// Where a fetch stands: what it waits for next.
#[derive(Debug, PartialEq, Eq)]
pub enum Stage {
    /// The response to the GET of the fetch's URL.
    AwaitResponse,
    /// The response body as text.
    AwaitText,
    /// The archive body, written to a fresh temporary file.
    AwaitStored,
    /// The entry names of the stored archive, in archive order.
    AwaitEntries,
    /// The text of the selected archive entry.
    AwaitEntry,
    /// The parser's verdict on `body`.
    AwaitParse { body: String },
    /// Nothing: the fetch has delivered or failed.
    Finished,
}

/// One fetch in progress: its target, its URL and its stage.
#[derive(Debug, PartialEq, Eq)]
pub struct Fetch {
    pub target: Target,
    pub url: String,
    pub stage: Stage,
}

/// What the outside world reports back to a fetch.
#[derive(Debug, PartialEq, Eq)]
pub enum Event {
    /// A response arrived with this status; `path` is the path of its final URL.
    Responded { status: u16, path: String },
    /// The request, or the reading of its body, failed.
    TransportFailed(String),
    /// The body, or the selected archive entry, read as text.
    Text(String),
    /// The parser's verdict on a manifest body.
    ManifestParsed(Result<VersionManifest, String>),
    /// The parser's verdict on a version document body.
    VersionParsed(Result<VersionDocument, String>),
    /// The archive body was written to its temporary file.
    Stored,
    /// Local storage of the archive failed.
    IoFailed(String),
    /// The stored archive opened, with these entry names in archive order.
    Entries(Vec<String>),
    /// The stored file is not a readable archive, or an entry could not be decoded.
    ArchiveInvalid(String),
}

/// What a fetch asks the outside world to do next, or how it ended.
#[derive(Debug, PartialEq, Eq)]
pub enum Action {
    /// Read the response body as text.
    ReadText,
    /// Parse this text as a manifest.
    ParseManifest(String),
    /// Parse this text as a version document.
    ParseVersion(String),
    /// Write the archive body to a file of this name in a fresh temporary directory.
    Store(String),
    /// Open the stored archive and list its entry names.
    OpenArchive,
    /// Read the entry at `index` as text; `candidates` entries had a `.json` name.
    ReadEntry { index: usize, candidates: usize },
    /// The fetch succeeded with this manifest.
    DeliverManifest(VersionManifest),
    /// The fetch succeeded with this version document.
    DeliverVersion(VersionDocument),
    /// The fetch failed with this error.
    Fail(MetadataError),
}

/// A status that counts as success.
pub open spec fn is_success(status: u16) -> bool {
    200 <= status <= 299
}

/// `f` moved on to stage `s`.
pub open spec fn at(f: Fetch, s: Stage) -> Fetch {
    Fetch { target: f.target, url: f.url, stage: s }
}

/// A fresh fetch of `url` for `target`.
pub open spec fn started(target: Target, url: String) -> Fetch {
    Fetch { target, url, stage: Stage::AwaitResponse }
}

/// The events that a fetch at its stage can be handed.
pub open spec fn expects(f: Fetch, e: Event) -> bool {
    match f.stage {
        Stage::AwaitResponse => e is Responded || e is TransportFailed,
        Stage::AwaitText => e is Text || e is TransportFailed,
        Stage::AwaitStored => e is Stored || e is TransportFailed || e is IoFailed,
        Stage::AwaitEntries => e is Entries || e is ArchiveInvalid || e is IoFailed,
        Stage::AwaitEntry => e is Text || e is ArchiveInvalid || e is IoFailed,
        Stage::AwaitParse { .. } => if f.target is Manifest {
            e is ManifestParsed
        } else {
            e is VersionParsed
        },
        Stage::Finished => false,
    }
}

/// `f` ended with `err`.
pub open spec fn fails(f: Fetch, g: Fetch, a: Action, err: MetadataError) -> bool {
    g == at(f, Stage::Finished) && a == Action::Fail(err)
}

/// Handing `e` to `f` yields the fetch `g` and the action `a`.
pub open spec fn steps_to(f: Fetch, e: Event, g: Fetch, a: Action) -> bool {
    match e {
        Event::Responded { status, path } => if !is_success(status) {
            fails(f, g, a, MetadataError::HttpStatus { url: f.url, status })
        } else if f.target is ZippedVersion {
            g == at(f, Stage::AwaitStored) && (a matches Action::Store(name) && name@
                == archive_name_for(path@))
        } else {
            g == at(f, Stage::AwaitText) && a == Action::ReadText
        },
        Event::TransportFailed(message) => fails(
            f,
            g,
            a,
            MetadataError::Transport { url: f.url, message },
        ),
        Event::Text(body) => g == at(f, Stage::AwaitParse { body }) && a == if f.target is Manifest {
            Action::ParseManifest(body)
        } else {
            Action::ParseVersion(body)
        },
        Event::ManifestParsed(parsed) => match parsed {
            Err(message) => fails(
                f,
                g,
                a,
                MetadataError::MalformedBody { url: f.url, body: f.stage->body, message },
            ),
            Ok(m) => match manifest_problem(m) {
                Some(problem) => fails(f, g, a, MetadataError::Validation { url: f.url, problem }),
                None => g == at(f, Stage::Finished) && a == Action::DeliverManifest(m),
            },
        },
        Event::VersionParsed(parsed) => match parsed {
            Err(message) => fails(
                f,
                g,
                a,
                MetadataError::MalformedBody { url: f.url, body: f.stage->body, message },
            ),
            Ok(d) => match version_problem(d) {
                Some(problem) => fails(f, g, a, MetadataError::Validation { url: f.url, problem }),
                None => g == at(f, Stage::Finished) && a == Action::DeliverVersion(d),
            },
        },
        Event::Stored => g == at(f, Stage::AwaitEntries) && a == Action::OpenArchive,
        Event::IoFailed(message) => fails(f, g, a, MetadataError::ArchiveIo { url: f.url, message }),
        Event::Entries(names) => match first_document(names@) {
            Some(i) => g == at(f, Stage::AwaitEntry) && a == Action::ReadEntry {
                index: i as usize,
                candidates: count_documents(names@) as usize,
            },
            None => fails(
                f,
                g,
                a,
                MetadataError::ArchiveFormat { url: f.url, problem: ArchiveProblem::DocumentNotFound },
            ),
        },
        Event::ArchiveInvalid(message) => fails(
            f,
            g,
            a,
            MetadataError::ArchiveFormat { url: f.url, problem: ArchiveProblem::Unreadable(message) },
        ),
    }
}


/// A manifest exchange that succeeds: a 2xx response, its body, and a
/// manifest that parsed from it without a semantic defect. The fetch reads
/// the body, hands exactly that body to the parser, and delivers the parsed
/// manifest unchanged, its releases in the same number and order.
pub proof fn lemma_manifest_delivered(
    url: String,
    status: u16,
    path: String,
    body: String,
    m: VersionManifest,
    f1: Fetch,
    a1: Action,
    f2: Fetch,
    a2: Action,
    f3: Fetch,
    a3: Action,
)
    requires
        is_success(status),
        manifest_problem(m) is None,
        steps_to(started(Target::Manifest, url), Event::Responded { status, path }, f1, a1),
        steps_to(f1, Event::Text(body), f2, a2),
        steps_to(f2, Event::ManifestParsed(Ok(m)), f3, a3),
    ensures
        a1 == Action::ReadText,
        a2 == Action::ParseManifest(body),
        a3 matches Action::DeliverManifest(out) && out.versions@ == m.versions@
            && out.versions@.len() == m.versions@.len(),
        f3.stage is Finished,
{
}

/// A response with a status outside 200..=299 ends a fetch of any target
/// with an HTTP status error for that status; no body is ever read.
pub proof fn lemma_status_failure(target: Target, url: String, status: u16, path: String, g: Fetch, a: Action)
    requires
        !is_success(status),
        steps_to(started(target, url), Event::Responded { status, path }, g, a),
    ensures
        a == Action::Fail(MetadataError::HttpStatus { url, status }),
        g.stage is Finished,
{
}

/// The parser's failure event for a fetch of `target`.
pub open spec fn parse_failed(target: Target, message: String) -> Event {
    if target is Manifest {
        Event::ManifestParsed(Err(message))
    } else {
        Event::VersionParsed(Err(message))
    }
}

/// A manifest or version document body that does not parse ends the fetch
/// with a malformed-body error that keeps the body exactly as received.
pub proof fn lemma_malformed_body_kept(
    target: Target,
    url: String,
    status: u16,
    path: String,
    body: String,
    message: String,
    f1: Fetch,
    a1: Action,
    f2: Fetch,
    a2: Action,
    f3: Fetch,
    a3: Action,
)
    requires
        target !is ZippedVersion,
        is_success(status),
        steps_to(started(target, url), Event::Responded { status, path }, f1, a1),
        steps_to(f1, Event::Text(body), f2, a2),
        steps_to(f2, parse_failed(target, message), f3, a3),
    ensures
        a3 == Action::Fail(MetadataError::MalformedBody { url, body, message }),
{
}

/// An archive entry whose text does not parse ends the extraction with a
/// malformed-body error that keeps that text exactly as read.
pub proof fn lemma_malformed_entry_kept(
    f: Fetch,
    body: String,
    message: String,
    f1: Fetch,
    a1: Action,
    f2: Fetch,
    a2: Action,
)
    requires
        f.target is ZippedVersion,
        f.stage is AwaitEntry,
        steps_to(f, Event::Text(body), f1, a1),
        steps_to(f1, Event::VersionParsed(Err(message)), f2, a2),
    ensures
        a1 == Action::ParseVersion(body),
        a2 == Action::Fail(MetadataError::MalformedBody { url: f.url, body, message }),
{
}

/// A manifest that parsed but has a semantic defect ends the fetch with a
/// validation error naming that defect, never with a malformed-body error.
pub proof fn lemma_invalid_manifest(f: Fetch, m: VersionManifest, g: Fetch, a: Action)
    requires
        manifest_problem(m) is Some,
        steps_to(f, Event::ManifestParsed(Ok(m)), g, a),
    ensures
        a == Action::Fail(MetadataError::Validation { url: f.url, problem: manifest_problem(m)->0 }),
        !(a matches Action::Fail(err) && err is MalformedBody),
{
}

/// A version document that parsed but has a semantic defect ends the fetch
/// with a validation error naming that defect, never with a malformed-body error.
pub proof fn lemma_invalid_version(f: Fetch, d: VersionDocument, g: Fetch, a: Action)
    requires
        version_problem(d) is Some,
        steps_to(f, Event::VersionParsed(Ok(d)), g, a),
    ensures
        a == Action::Fail(MetadataError::Validation { url: f.url, problem: version_problem(d)->0 }),
        !(a matches Action::Fail(err) && err is MalformedBody),
{
}

/// The entry read from an archive is the first one, in archive order, whose
/// name ends in `.json`; later such entries are not read.
pub proof fn lemma_first_json_entry_read(f: Fetch, names: Vec<String>, i: int, g: Fetch, a: Action)
    requires
        0 <= i < names@.len() <= usize::MAX,
        is_document_name(names@[i]@),
        forall|j: int| 0 <= j < i ==> !is_document_name(#[trigger] names@[j]@),
        steps_to(f, Event::Entries(names), g, a),
    ensures
        a matches Action::ReadEntry { index, .. } && index == i,
        g.stage is AwaitEntry,
{
    lemma_first_document(names@);
    if let Some(k) = first_document(names@) {
        if k < i {
            assert(!is_document_name(names@[k as int]@));
        } else if k > i {
            assert(!is_document_name(names@[i]@));
        }
    }
    assert(first_document(names@) == Some(i as nat));
}

/// An archive without any entry whose name ends in `.json` ends the
/// extraction with a document-not-found archive error.
pub proof fn lemma_no_json_entry(f: Fetch, names: Vec<String>, g: Fetch, a: Action)
    requires
        forall|j: int| 0 <= j < names@.len() ==> !is_document_name(#[trigger] names@[j]@),
        steps_to(f, Event::Entries(names), g, a),
    ensures
        a == Action::Fail(
            MetadataError::ArchiveFormat { url: f.url, problem: ArchiveProblem::DocumentNotFound },
        ),
        g.stage is Finished,
{
    lemma_first_document(names@);
}

/// Every decision of a manifest fetch is fixed by the fetch and what it was
/// handed: two fetches of an unchanged manifest, fed the same exchange,
/// reach equal fetches and equal actions, and so equal results.
pub proof fn lemma_manifest_fetch_repeatable(f: Fetch, e: Event, g1: Fetch, a1: Action, g2: Fetch, a2: Action)
    requires
        f.target is Manifest,
        steps_to(f, e, g1, a1),
        steps_to(f, e, g2, a2),
    ensures
        g1 == g2,
        a1 == a2,
{
}

impl Fetch {
    /// A fetch of `url` for `target`; its first work is a GET of `url`.
    pub fn new(target: Target, url: String) -> (r: Fetch)
        ensures
            r == started(target, url),
    {
        Fetch { target, url, stage: Stage::AwaitResponse }
    }

    /// Whether the fetch has delivered or failed.
    pub fn is_finished(&self) -> (r: bool)
        ensures
            r == (self.stage is Finished),
    {
        match self.stage {
            Stage::Finished => true,
            _ => false,
        }
    }

    /// Hands `event` to the fetch: the fetch it becomes and what to do next.
    pub fn step(self, event: Event) -> (r: (Fetch, Action))
        requires
            expects(self, event),
        ensures
            steps_to(self, event, r.0, r.1),
    {
        let Fetch { target, url, stage } = self;
        let moved = |s: Stage| -> (g: Fetch)
            ensures
                g == (Fetch { target, url, stage: s }),
            { Fetch { target, url: url.clone(), stage: s } };
        match event {
            Event::Responded { status, path } => {
                if !(200 <= status && status <= 299) {
                    let err = MetadataError::HttpStatus { url: url.clone(), status };
                    (moved(Stage::Finished), Action::Fail(err))
                } else {
                    match target {
                        Target::ZippedVersion => {
                            let name = archive_file_name(path.as_str());
                            (moved(Stage::AwaitStored), Action::Store(name))
                        },
                        _ => (moved(Stage::AwaitText), Action::ReadText),
                    }
                }
            },
            Event::TransportFailed(message) => {
                let err = MetadataError::Transport { url: url.clone(), message };
                (moved(Stage::Finished), Action::Fail(err))
            },
            Event::Text(body) => {
                let action = match target {
                    Target::Manifest => Action::ParseManifest(body.clone()),
                    _ => Action::ParseVersion(body.clone()),
                };
                (moved(Stage::AwaitParse { body }), action)
            },
            Event::ManifestParsed(parsed) => {
                let body = match stage {
                    Stage::AwaitParse { body } => body,
                    _ => String::new(),
                };
                match parsed {
                    Err(message) => {
                        let err = MetadataError::MalformedBody { url: url.clone(), body, message };
                        (moved(Stage::Finished), Action::Fail(err))
                    },
                    Ok(m) => match find_manifest_problem(&m) {
                        Some(problem) => {
                            let err = MetadataError::Validation { url: url.clone(), problem };
                            (moved(Stage::Finished), Action::Fail(err))
                        },
                        None => (moved(Stage::Finished), Action::DeliverManifest(m)),
                    },
                }
            },
            Event::VersionParsed(parsed) => {
                let body = match stage {
                    Stage::AwaitParse { body } => body,
                    _ => String::new(),
                };
                match parsed {
                    Err(message) => {
                        let err = MetadataError::MalformedBody { url: url.clone(), body, message };
                        (moved(Stage::Finished), Action::Fail(err))
                    },
                    Ok(d) => match find_version_problem(&d) {
                        Some(problem) => {
                            let err = MetadataError::Validation { url: url.clone(), problem };
                            (moved(Stage::Finished), Action::Fail(err))
                        },
                        None => (moved(Stage::Finished), Action::DeliverVersion(d)),
                    },
                }
            },
            Event::Stored => (moved(Stage::AwaitEntries), Action::OpenArchive),
            Event::IoFailed(message) => {
                let err = MetadataError::ArchiveIo { url: url.clone(), message };
                (moved(Stage::Finished), Action::Fail(err))
            },
            Event::Entries(names) => {
                let (first, candidates) = select_document(&names);
                match first {
                    Some(index) => (moved(Stage::AwaitEntry), Action::ReadEntry { index, candidates }),
                    None => {
                        let err = MetadataError::ArchiveFormat {
                            url: url.clone(),
                            problem: ArchiveProblem::DocumentNotFound,
                        };
                        (moved(Stage::Finished), Action::Fail(err))
                    },
                }
            },
            Event::ArchiveInvalid(message) => {
                let err = MetadataError::ArchiveFormat {
                    url: url.clone(),
                    problem: ArchiveProblem::Unreadable(message),
                };
                (moved(Stage::Finished), Action::Fail(err))
            },
        }
    }
}

} // verus!
