use vstd::prelude::*;

use crate::error::{Channel, Problem};

verus! {

/// The latest-release pointers of a manifest, by release identifier.
#[derive(Clone, Debug, PartialEq, Eq)]
pub struct LatestVersions {
    pub release: Option<String>,
    pub snapshot: Option<String>,
}

/// One release as the manifest lists it.
#[derive(Clone, Debug, PartialEq, Eq)]
pub struct VersionSummary {
    pub id: String,
    pub kind: String,
    pub url: String,
    pub time: String,
    pub release_time: String,
}

/// The top-level manifest: latest pointers and the releases in publisher order.
#[derive(Clone, Debug, PartialEq, Eq)]
pub struct VersionManifest {
    pub latest: LatestVersions,
    pub versions: Vec<VersionSummary>,
}

/// The full descriptor of one release.
#[derive(Clone, Debug, PartialEq, Eq)]
pub struct VersionDocument {
    pub id: String,
    pub kind: String,
    pub main_class: String,
    pub time: String,
    pub release_time: String,
}

/// `s` begins with `p`.
pub open spec fn has_prefix(s: Seq<char>, p: Seq<char>) -> bool {
    p.len() <= s.len() && s.subrange(0, p.len() as int) == p
}

/// An absolute http or https URL: the scheme, `//`, and something after it.
pub open spec fn is_http_url(u: Seq<char>) -> bool {
    ||| has_prefix(u, "https://"@) && u.len() > 8
    ||| has_prefix(u, "http://"@) && u.len() > 7
}

/// Some release of `vs` has the identifier `id`.
pub open spec fn lists_release(vs: Seq<VersionSummary>, id: Seq<char>) -> bool {
    exists|i: int| 0 <= i < vs.len() && #[trigger] vs[i].id@ == id
}

/// The position of the first release of `vs` whose URL is not an http(s) URL.
pub open spec fn first_invalid_url(vs: Seq<VersionSummary>) -> Option<nat>
    decreases vs.len(),
{
    if vs.len() == 0 {
        None
    } else {
        match first_invalid_url(vs.drop_last()) {
            Some(i) => Some(i),
            None => if is_http_url(vs.last().url@) {
                None
            } else {
                Some((vs.len() - 1) as nat)
            },
        }
    }
}

/// The first semantic defect of a manifest, checked in this order: a missing
/// latest pointer, a latest pointer to an unlisted release, a release URL
/// that is not absolute.
pub open spec fn manifest_problem(m: VersionManifest) -> Option<Problem> {
    if m.latest.release is None {
        Some(Problem::MissingLatest(Channel::Release))
    } else if m.latest.snapshot is None {
        Some(Problem::MissingLatest(Channel::Snapshot))
    } else if !lists_release(m.versions@, m.latest.release->0@) {
        Some(Problem::UnknownLatest(Channel::Release))
    } else if !lists_release(m.versions@, m.latest.snapshot->0@) {
        Some(Problem::UnknownLatest(Channel::Snapshot))
    } else {
        match first_invalid_url(m.versions@) {
            Some(i) => Some(Problem::InvalidReleaseUrl(i as usize)),
            None => None,
        }
    }
}

/// The first semantic defect of a version document: an empty identifier,
/// then an empty main class.
pub open spec fn version_problem(d: VersionDocument) -> Option<Problem> {
    if d.id@.len() == 0 {
        Some(Problem::MissingId)
    } else if d.main_class@.len() == 0 {
        Some(Problem::MissingMainClass)
    } else {
        None
    }
}

proof fn lemma_first_invalid_url_bound(vs: Seq<VersionSummary>)
    ensures
        first_invalid_url(vs) matches Some(i) ==> i < vs.len() && !is_http_url(vs[i as int].url@),
    decreases vs.len(),
{
    if vs.len() > 0 {
        lemma_first_invalid_url_bound(vs.drop_last());
    }
}

/// Whether `s` begins with `p`.
pub fn starts_with(s: &str, p: &str) -> (r: bool)
    ensures
        r == has_prefix(s@, p@),
{
    let n = s.unicode_len();
    let k = p.unicode_len();
    if k > n {
        return false;
    }
    let mut i: usize = 0;
    while i < k
        invariant
            k == p@.len(),
            n == s@.len(),
            k <= n,
            i <= k,
            forall|j: int| 0 <= j < i ==> s@[j] == p@[j],
        decreases k - i,
    {
        if s.get_char(i) != p.get_char(i) {
            assert(s@.subrange(0, k as int)[i as int] != p@[i as int]);
            return false;
        }
        i = i + 1;
    }
    assert(s@.subrange(0, k as int) =~= p@);
    true
}

/// Whether `u` is an absolute http or https URL.
pub fn is_release_url(u: &str) -> (r: bool)
    ensures
        r == is_http_url(u@),
{
    proof {
        reveal_strlit("https://");
        reveal_strlit("http://");
    }
    let n = u.unicode_len();
    (starts_with(u, "https://") && n > 8) || (starts_with(u, "http://") && n > 7)
}

/// Whether some release of `vs` has the identifier `id`.
pub fn find_release(vs: &Vec<VersionSummary>, id: &String) -> (r: bool)
    ensures
        r == lists_release(vs@, id@),
{
    let mut i: usize = 0;
    while i < vs.len()
        invariant
            i <= vs@.len(),
            forall|j: int| 0 <= j < i ==> vs@[j].id@ != id@,
        decreases vs.len() - i,
    {
        if vs[i].id == *id {
            return true;
        }
        i = i + 1;
    }
    false
}

/// The position of the first release whose URL is not an http(s) URL.
pub fn find_invalid_url(vs: &Vec<VersionSummary>) -> (r: Option<usize>)
    ensures
        r == match first_invalid_url(vs@) {
            Some(i) => Some(i as usize),
            None => None::<usize>,
        },
{
    let mut i: usize = 0;
    while i < vs.len()
        invariant
            i <= vs@.len(),
            first_invalid_url(vs@.subrange(0, i as int)) is None,
        decreases vs.len() - i,
    {
        assert(vs@.subrange(0, i + 1).drop_last() =~= vs@.subrange(0, i as int));
        if !is_release_url(vs[i].url.as_str()) {
            proof {
                lemma_prefix_invalid_url(vs@, (i + 1) as int);
            }
            return Some(i);
        }
        i = i + 1;
    }
    assert(vs@.subrange(0, i as int) =~= vs@);
    None
}

/// Once a prefix of `vs` holds an invalid URL, the whole of `vs` reports the same one.
proof fn lemma_prefix_invalid_url(vs: Seq<VersionSummary>, k: int)
    requires
        0 <= k <= vs.len(),
        first_invalid_url(vs.subrange(0, k)) is Some,
    ensures
        first_invalid_url(vs) == first_invalid_url(vs.subrange(0, k)),
    decreases vs.len() - k,
{
    if k < vs.len() {
        assert(vs.subrange(0, k + 1).drop_last() =~= vs.subrange(0, k));
        lemma_prefix_invalid_url(vs, k + 1);
    } else {
        assert(vs.subrange(0, k) =~= vs);
    }
}

/// The first semantic defect of `m`, if any.
pub fn find_manifest_problem(m: &VersionManifest) -> (r: Option<Problem>)
    ensures
        r == manifest_problem(*m),
{
    let release = match &m.latest.release {
        Some(id) => id,
        None => return Some(Problem::MissingLatest(Channel::Release)),
    };
    let snapshot = match &m.latest.snapshot {
        Some(id) => id,
        None => return Some(Problem::MissingLatest(Channel::Snapshot)),
    };
    if !find_release(&m.versions, release) {
        return Some(Problem::UnknownLatest(Channel::Release));
    }
    if !find_release(&m.versions, snapshot) {
        return Some(Problem::UnknownLatest(Channel::Snapshot));
    }
    proof {
        lemma_first_invalid_url_bound(m.versions@);
    }
    match find_invalid_url(&m.versions) {
        Some(i) => Some(Problem::InvalidReleaseUrl(i)),
        None => None,
    }
}

/// The first semantic defect of `d`, if any.
pub fn find_version_problem(d: &VersionDocument) -> (r: Option<Problem>)
    ensures
        r == version_problem(*d),
{
    if d.id.as_str().unicode_len() == 0 {
        Some(Problem::MissingId)
    } else if d.main_class.as_str().unicode_len() == 0 {
        Some(Problem::MissingMainClass)
    } else {
        None
    }
}

} // verus!
