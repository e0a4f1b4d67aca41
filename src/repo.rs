//! Repository references: `"owner/repo"` entries split into their two parts.
use vstd::prelude::*;

verus! {

/// Splits `s` at its first `/`: the text before it and the text after it,
/// or nothing when `s` holds no `/`.
pub open spec fn split_first_slash(s: Seq<char>) -> Option<(Seq<char>, Seq<char>)>
    decreases s.len(),
{
    if s.len() == 0 {
        None
    } else if s[0] == '/' {
        Some((Seq::<char>::empty(), s.drop_first()))
    } else {
        match split_first_slash(s.drop_first()) {
            Some(parts) => Some((seq![s[0]] + parts.0, parts.1)),
            None => None,
        }
    }
}

/// The reference that a configured entry names: both sides of its first `/`,
/// when neither is empty.
pub open spec fn repo_ref_of(entry: Seq<char>) -> Option<(Seq<char>, Seq<char>)> {
    match split_first_slash(entry) {
        Some(parts) => if parts.0.len() > 0 && parts.1.len() > 0 {
            Some(parts)
        } else {
            None
        },
        None => None,
    }
}

/// The references that a list of configured entries names, in order;
/// malformed entries contribute none.
pub open spec fn repo_refs_of(entries: Seq<Seq<char>>) -> Seq<(Seq<char>, Seq<char>)> {
    entries.filter_map(|e: Seq<char>| repo_ref_of(e))
}

proof fn lemma_split_none(s: Seq<char>)
    requires
        !s.contains('/'),
    ensures
        split_first_slash(s) is None,
    decreases s.len(),
{
    if s.len() > 0 {
        assert(s[0] != '/');
        assert forall|j: int| 0 <= j < s.drop_first().len() implies s.drop_first()[j] != '/' by {
            assert(s.drop_first()[j] == s[j + 1]);
        }
        lemma_split_none(s.drop_first());
    }
}

proof fn lemma_split_some(s: Seq<char>, a: Seq<char>, b: Seq<char>)
    requires
        s == a + seq!['/'] + b,
        !a.contains('/'),
    ensures
        split_first_slash(s) == Some((a, b)),
    decreases a.len(),
{
    if a.len() == 0 {
        assert(s[0] == '/');
        assert(s.drop_first() =~= b);
    } else {
        assert(a[0] != '/');
        assert(s[0] == a[0]);
        let a1 = a.drop_first();
        assert(s.drop_first() =~= a1 + seq!['/'] + b);
        assert forall|j: int| 0 <= j < a1.len() implies a1[j] != '/' by {
            assert(a1[j] == a[j + 1]);
        }
        lemma_split_some(s.drop_first(), a1, b);
        assert(seq![s[0]] + a1 =~= a);
    }
}

/// Relies on `str::split_once`: with a `char` pattern it splits at the first
/// occurrence and returns the text on either side, or `None` when there is none.
#[verifier::external_body]
fn split_once_slash(s: &str) -> (r: Option<(String, String)>)
    ensures
        match r {
            Some(parts) => s@ == parts.0@ + seq!['/'] + parts.1@ && !parts.0@.contains('/'),
            None => !s@.contains('/'),
        },
{
    s.split_once('/').map(|(a, b)| (a.to_string(), b.to_string()))
}

/// One repository: the account that owns it and its name.
#[derive(Clone, Debug)]
pub struct RepoRef {
    pub owner: String,
    pub repo: String,
}

impl View for RepoRef {
    type V = (Seq<char>, Seq<char>);

    open spec fn view(&self) -> (Seq<char>, Seq<char>) {
        (self.owner@, self.repo@)
    }
}

impl RepoRef {
    /// Both parts are non-empty.
    pub open spec fn wf(&self) -> bool {
        self.owner@.len() > 0 && self.repo@.len() > 0
    }

    /// Reads an `"owner/repo"` entry; `None` when it holds no `/` or when
    /// either side of the first `/` is empty.
    pub fn parse(entry: &str) -> (r: Option<RepoRef>)
        ensures
            match r {
                Some(rr) => repo_ref_of(entry@) == Some(rr@) && rr.wf(),
                None => repo_ref_of(entry@) is None,
            },
    {
        match split_once_slash(entry) {
            Some((owner, repo)) => {
                proof {
                    lemma_split_some(entry@, owner@, repo@);
                }
                if owner.as_str().is_empty() || repo.as_str().is_empty() {
                    None
                } else {
                    Some(RepoRef { owner, repo })
                }
            },
            None => {
                proof {
                    lemma_split_none(entry@);
                }
                None
            },
        }
    }
}

/// The views of a list of strings.
pub open spec fn views_of(v: Seq<String>) -> Seq<Seq<char>> {
    v.map_values(|s: String| s@)
}

/// The views of a list of references.
pub open spec fn ref_views_of(v: Seq<RepoRef>) -> Seq<(Seq<char>, Seq<char>)> {
    v.map_values(|r: RepoRef| r@)
}

/// The repositories that configured entries name, in their order; entries
/// without a `/`, or with an empty side, are dropped.
pub fn repo_refs(entries: &Vec<String>) -> (r: Vec<RepoRef>)
    ensures
        ref_views_of(r@) == repo_refs_of(views_of(entries@)),
        forall|i: int| 0 <= i < r@.len() ==> (#[trigger] r@[i]).wf(),
{
    let ghost f = |e: Seq<char>| repo_ref_of(e);
    let ghost es = views_of(entries@);
    let mut out: Vec<RepoRef> = Vec::new();
    let mut i: usize = 0;
    while i < entries.len()
        invariant
            i <= entries.len(),
            es == views_of(entries@),
            f == (|e: Seq<char>| repo_ref_of(e)),
            ref_views_of(out@) =~= es.take(i as int).filter_map(f),
            forall|k: int| 0 <= k < out@.len() ==> (#[trigger] out@[k]).wf(),
        decreases entries.len() - i,
    {
        proof {
            es.lemma_filter_map_take_succ(f, i as int);
        }
        let parsed = RepoRef::parse(entries[i].as_str());
        assert(es[i as int] == entries@[i as int]@);
        let ghost before = out@;
        match parsed {
            Some(rr) => {
                out.push(rr);
                assert(ref_views_of(out@) =~= ref_views_of(before) + seq![rr@]);
                assert(f(es[i as int]) == Some(rr@));
            },
            None => {
                assert(f(es[i as int]) is None);
            },
        }
        assert(ref_views_of(out@) =~= es.take(i + 1).filter_map(f));
        i = i + 1;
    }
    assert(es.take(entries.len() as int) =~= es);
    out
}

/// An entry without a `/` never reaches the fetcher: the references named by
/// a list are those named by its entries that hold a `/`.
pub proof fn lemma_entries_without_slash_dropped(entries: Seq<Seq<char>>)
    ensures
        repo_refs_of(entries) == repo_refs_of(entries.filter(|e: Seq<char>| e.contains('/'))),
        forall|e: Seq<char>| !e.contains('/') ==> repo_ref_of(e) is None,
    decreases entries.len(),
{
    let p = |e: Seq<char>| e.contains('/');
    assert forall|e: Seq<char>| !e.contains('/') implies repo_ref_of(e) is None by {
        lemma_split_none(e);
    }
    reveal(Seq::filter);
    if entries.len() > 0 {
        lemma_entries_without_slash_dropped(entries.drop_last());
        let rest = entries.drop_last().filter(p);
        if p(entries.last()) {
            let fe = entries.filter(p);
            assert(fe == rest.push(entries.last()));
            assert(fe.drop_last() =~= rest);
            assert(fe.last() == entries.last());
        }
    }
}

} // verus!
