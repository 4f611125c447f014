use vstd::prelude::*;

verus! {

/// The text after the last `/` of a URL path: its final segment.
pub open spec fn last_segment(path: Seq<char>) -> Seq<char>
    decreases path.len(),
{
    if path.len() == 0 {
        path
    } else if path.last() == '/' {
        Seq::empty()
    } else {
        last_segment(path.drop_last()).push(path.last())
    }
}

/// The name used when a response URL has no usable final segment.
pub open spec fn fallback_archive_name() -> Seq<char> {
    "tmp.zip"@
}

/// The local file name of an archive fetched from a URL with this path: its
/// final segment, or the fallback name where that segment is empty.
pub open spec fn archive_name_for(path: Seq<char>) -> Seq<char> {
    if last_segment(path).len() == 0 {
        fallback_archive_name()
    } else {
        last_segment(path)
    }
}

/// An archive entry name that marks a version document: it ends in `.json`.
pub open spec fn is_document_name(name: Seq<char>) -> bool {
    name.len() >= 5 && name.subrange(name.len() - 5, name.len() as int) == seq!['.', 'j', 's', 'o', 'n']
}

/// The position of the first document name of `names`.
pub open spec fn first_document(names: Seq<String>) -> Option<nat>
    decreases names.len(),
{
    if names.len() == 0 {
        None
    } else {
        match first_document(names.drop_last()) {
            Some(i) => Some(i),
            None => if is_document_name(names.last()@) {
                Some((names.len() - 1) as nat)
            } else {
                None
            },
        }
    }
}

/// How many names of `names` are document names.
pub open spec fn count_documents(names: Seq<String>) -> nat
    decreases names.len(),
{
    if names.len() == 0 {
        0
    } else {
        count_documents(names.drop_last()) + if is_document_name(names.last()@) {
            1nat
        } else {
            0nat
        }
    }
}

proof fn lemma_last_segment(path: Seq<char>, k: int)
    requires
        0 <= k <= path.len(),
        k == 0 || path[k - 1] == '/',
        forall|i: int| k <= i < path.len() ==> path[i] != '/',
    ensures
        last_segment(path) == path.subrange(k, path.len() as int),
    decreases path.len(),
{
    if path.len() == k {
        assert(path.subrange(k, k) =~= Seq::<char>::empty());
    } else {
        lemma_last_segment(path.drop_last(), k);
        assert(path.subrange(k, path.len() as int) =~= path.drop_last().subrange(
            k,
            path.len() - 1,
        ).push(path.last()));
    }
}

/// The first document name of `names` is the earliest one: none stands before it.
pub proof fn lemma_first_document(names: Seq<String>)
    ensures
        first_document(names) matches Some(i) ==> {
            &&& i < names.len()
            &&& is_document_name(names[i as int]@)
            &&& forall|j: int| 0 <= j < i ==> !is_document_name(#[trigger] names[j]@)
        },
        first_document(names) is None <==> forall|j: int|
            0 <= j < names.len() ==> !is_document_name(#[trigger] names[j]@),
        first_document(names) is None <==> count_documents(names) == 0,
    decreases names.len(),
{
    if names.len() > 0 {
        let init = names.drop_last();
        lemma_first_document(init);
        assert forall|j: int| 0 <= j < init.len() implies init[j] == names[j] by {}
        if first_document(init) is None && !is_document_name(names.last()@) {
            assert forall|j: int| 0 <= j < names.len() implies !is_document_name(
                #[trigger] names[j]@,
            ) by {
                if j < init.len() {
                    assert(init[j] == names[j]);
                }
            }
        }
    }
}

/// The local file name for an archive whose response URL has this path.
pub fn archive_file_name(path: &str) -> (r: String)
    ensures
        r@ == archive_name_for(path@),
{
    let n = path.unicode_len();
    let mut k: usize = n;
    loop
        invariant
            n == path@.len(),
            k <= n,
            forall|i: int| k <= i < n ==> path@[i] != '/',
        ensures
            k <= n,
            k == 0 || path@[k - 1] == '/',
            forall|i: int| k <= i < n ==> path@[i] != '/',
        decreases k,
    {
        if k == 0 || path.get_char(k - 1) == '/' {
            break;
        }
        k = k - 1;
    }
    proof {
        lemma_last_segment(path@, k as int);
    }
    if k == n {
        String::from_str("tmp.zip")
    } else {
        String::from_str(path.substring_char(k, n))
    }
}

/// Whether `name` ends in `.json`.
pub fn is_document_entry(name: &str) -> (r: bool)
    ensures
        r == is_document_name(name@),
{
    let n = name.unicode_len();
    if n < 5 {
        return false;
    }
    let r = name.get_char(n - 5) == '.' && name.get_char(n - 4) == 'j' && name.get_char(n - 3)
        == 's' && name.get_char(n - 2) == 'o' && name.get_char(n - 1) == 'n';
    proof {
        let tail = name@.subrange(n - 5, n as int);
        if r {
            assert(tail =~= seq!['.', 'j', 's', 'o', 'n']);
        } else if tail == seq!['.', 'j', 's', 'o', 'n'] {
            assert(tail[0] == name@[n - 5]);
            assert(tail[1] == name@[n - 4]);
            assert(tail[2] == name@[n - 3]);
            assert(tail[3] == name@[n - 2]);
            assert(tail[4] == name@[n - 1]);
        }
    }
    r
}

/// The archive entry to read as the version document, with the number of
/// entries that qualified: the first `.json` entry in archive order wins.
pub fn select_document(names: &Vec<String>) -> (r: (Option<usize>, usize))
    ensures
        r.0 == match first_document(names@) {
            Some(i) => Some(i as usize),
            None => None::<usize>,
        },
        r.1 == count_documents(names@),
{
    let mut first: Option<usize> = None;
    let mut count: usize = 0;
    let mut i: usize = 0;
    while i < names.len()
        invariant
            i <= names@.len(),
            count <= i,
            count == count_documents(names@.subrange(0, i as int)),
            first == match first_document(names@.subrange(0, i as int)) {
                Some(j) => Some(j as usize),
                None => None::<usize>,
            },
        decreases names.len() - i,
    {
        proof {
            assert(names@.subrange(0, i + 1).drop_last() =~= names@.subrange(0, i as int));
            lemma_first_document(names@.subrange(0, i as int));
        }
        if is_document_entry(names[i].as_str()) {
            if first.is_none() {
                first = Some(i);
            }
            count = count + 1;
        }
        i = i + 1;
    }
    assert(names@.subrange(0, i as int) =~= names@);
    (first, count)
}

} // verus!
