//! Which open pull requests wait on a user, and the lines and the
//! notification body that list them.
use vstd::prelude::*;
use crate::repo::{views_of, RepoRef};
use crate::text::{decimal, decimal_of};

verus! {

/// What the logic reads of one open pull request.
#[derive(Clone, Debug)]
pub struct PullSummary {
    pub number: u64,
    pub title: Option<String>,
    /// The logins asked to look at it; `None` when the request carries no such list.
    pub requested_reviewers: Option<Vec<String>>,
}

/// A pull request seen as plain values: number, title, requested logins.
pub type PullView = (nat, Option<Seq<char>>, Option<Seq<Seq<char>>>);

impl View for PullSummary {
    type V = PullView;

    open spec fn view(&self) -> PullView {
        (
            self.number as nat,
            match self.title {
                Some(t) => Some(t@),
                None => None,
            },
            match self.requested_reviewers {
                Some(rs) => Some(views_of(rs@)),
                None => None,
            },
        )
    }
}

/// The first page of open pull requests of one repository, in the order
/// the service returned them.
#[derive(Clone, Debug)]
pub struct RepoPulls {
    pub repo: RepoRef,
    pub pulls: Vec<PullSummary>,
}

/// A pull request waits on `user` when it carries no list of requested logins, or when
/// `user` is one of the listed logins.
pub open spec fn waits_on(reviewers: Option<Seq<Seq<char>>>, user: Seq<char>) -> bool {
    match reviewers {
        None => true,
        Some(rs) => rs.contains(user),
    }
}

/// The line that lists a pull request: `[repo] #number title`.
pub open spec fn line_of(repo: Seq<char>, number: nat, title: Seq<char>) -> Seq<char> {
    "["@ + repo + "] #"@ + decimal_of(number) + " "@ + title
}

/// The line for a pull request of `repo`, when it waits on `user` and has a title.
pub open spec fn listed_line(repo: Seq<char>, p: PullView, user: Seq<char>) -> Option<Seq<char>> {
    if waits_on(p.2, user) {
        match p.1 {
            Some(t) => Some(line_of(repo, p.0, t)),
            None => None,
        }
    } else {
        None
    }
}

/// The lines for the pull requests of one repository, in their order.
pub open spec fn lines_of_repo(repo: Seq<char>, pulls: Seq<PullView>, user: Seq<char>) -> Seq<Seq<char>> {
    pulls.filter_map(|p: PullView| listed_line(repo, p, user))
}

/// One repository's name and pull requests, as plain values.
pub open spec fn page_view(rp: RepoPulls) -> (Seq<char>, Seq<PullView>) {
    (rp.repo.repo@, rp.pulls@.map_values(|p: PullSummary| p@))
}

/// The lines for every repository, repository by repository.
pub open spec fn blocked_of(pages: Seq<(Seq<char>, Seq<PullView>)>, user: Seq<char>) -> Seq<Seq<char>>
    decreases pages.len(),
{
    if pages.len() == 0 {
        Seq::empty()
    } else {
        blocked_of(pages.drop_last(), user) + lines_of_repo(pages.last().0, pages.last().1, user)
    }
}

/// Lines joined by newlines, with none after the last.
pub open spec fn join_lines(items: Seq<Seq<char>>) -> Seq<char>
    decreases items.len(),
{
    if items.len() == 0 {
        Seq::empty()
    } else if items.len() == 1 {
        items[0]
    } else {
        join_lines(items.drop_last()) + "\n"@ + items.last()
    }
}

/// The notification body: a fixed header, then one line per item.
pub open spec fn body_of(items: Seq<Seq<char>>) -> Seq<char> {
    "Review requested\n--------\n"@ + join_lines(items)
}

impl PullSummary {
    /// Whether this pull request waits on `username`: it has no list of
    /// requested logins, or `username` is in it (compared case-sensitively).
    pub fn waits_on(&self, username: &String) -> (r: bool)
        ensures
            r == waits_on(self@.2, username@),
    {
        match &self.requested_reviewers {
            None => true,
            Some(rs) => {
                assert(self@.2 == Some(views_of(rs@)));
                let mut j: usize = 0;
                while j < rs.len()
                    invariant
                        j <= rs.len(),
                        self@.2 == Some(views_of(rs@)),
                        forall|k: int| 0 <= k < j ==> rs@[k]@ != username@,
                    decreases rs.len() - j,
                {
                    if rs[j] == *username {
                        assert(views_of(rs@)[j as int] == username@);
                        assert(views_of(rs@).contains(username@));
                        return true;
                    }
                    j = j + 1;
                }
                assert(!views_of(rs@).contains(username@));
                false
            },
        }
    }
}

/// Formats the line that lists a pull request: `[repo] #number title`.
pub fn summary_line(repo: &str, number: u64, title: &str) -> (r: String)
    ensures
        r@ == line_of(repo@, number as nat, title@),
{
    let mut s = "[".to_owned();
    s.append(repo);
    s.append("] #");
    let n = decimal(number);
    s.append(n.as_str());
    s.append(" ");
    s.append(title);
    assert(s@ =~= line_of(repo@, number as nat, title@));
    s
}

/// Appends to `out` the lines for the pull requests of `page` that wait on
/// `username` and have a title, in their order.
pub fn push_blocked(out: &mut Vec<String>, page: &RepoPulls, username: &String)
    ensures
        views_of(final(out)@) == views_of(old(out)@) + lines_of_repo(page_view(*page).0, page_view(*page).1, username@),
{
    let ghost f = |p: PullView| listed_line(page.repo.repo@, p, username@);
    let ghost ps = page_view(*page).1;
    let ghost start = views_of(out@);
    let pulls = &page.pulls;
    let mut i: usize = 0;
    while i < pulls.len()
        invariant
            i <= pulls.len(),
            pulls == &page.pulls,
            ps == page_view(*page).1,
            f == (|p: PullView| listed_line(page.repo.repo@, p, username@)),
            views_of(out@) =~= start + ps.take(i as int).filter_map(f),
        decreases pulls.len() - i,
    {
        proof {
            ps.lemma_filter_map_take_succ(f, i as int);
        }
        let p = &pulls[i];
        assert(ps[i as int] == p@);
        let ghost before = out@;
        if p.waits_on(username) {
            match &p.title {
                Some(t) => {
                    let line = summary_line(page.repo.repo.as_str(), p.number, t.as_str());
                    out.push(line);
                    assert(views_of(out@) =~= views_of(before) + seq![line@]);
                    assert(f(ps[i as int]) == Some(line@));
                },
                None => {
                    assert(f(ps[i as int]) is None);
                },
            }
        } else {
            assert(f(ps[i as int]) is None);
        }
        assert(views_of(out@) =~= start + ps.take(i + 1).filter_map(f));
        i = i + 1;
    }
    assert(ps.take(pulls.len() as int) =~= ps);
}

/// The lines for every fetched repository, repository by repository and,
/// within one, in the order the service returned its pull requests.
pub fn collect_blocked(pages: &Vec<RepoPulls>, username: &String) -> (r: Vec<String>)
    ensures
        views_of(r@) == blocked_of(pages@.map_values(|p: RepoPulls| page_view(p)), username@),
{
    let ghost pv = pages@.map_values(|p: RepoPulls| page_view(p));
    let mut out: Vec<String> = Vec::new();
    let mut i: usize = 0;
    while i < pages.len()
        invariant
            i <= pages.len(),
            pv == pages@.map_values(|p: RepoPulls| page_view(p)),
            views_of(out@) =~= blocked_of(pv.take(i as int), username@),
        decreases pages.len() - i,
    {
        push_blocked(&mut out, &pages[i], username);
        assert(pv.take(i + 1).drop_last() =~= pv.take(i as int));
        i = i + 1;
    }
    assert(pv.take(pages.len() as int) =~= pv);
    out
}

/// Builds the notification body: the header, then the items one per line.
pub fn notification_body(items: &Vec<String>) -> (r: String)
    ensures
        r@ == body_of(views_of(items@)),
{
    let ghost iv = views_of(items@);
    let mut joined = String::new();
    let mut i: usize = 0;
    while i < items.len()
        invariant
            i <= items.len(),
            iv == views_of(items@),
            joined@ =~= join_lines(iv.take(i as int)),
        decreases items.len() - i,
    {
        if i > 0 {
            joined.append("\n");
        }
        joined.append(items[i].as_str());
        assert(iv.take(i + 1).drop_last() =~= iv.take(i as int));
        i = i + 1;
    }
    assert(iv.take(items.len() as int) =~= iv);
    let mut body = "Review requested\n--------\n".to_owned();
    body.append(joined.as_str());
    body
}

/// The lines of a repository with one more pull request: those before, then
/// that request's line when it has one.
pub proof fn lemma_lines_push(repo: Seq<char>, pulls: Seq<PullView>, p: PullView, user: Seq<char>)
    ensures
        lines_of_repo(repo, pulls.push(p), user) == lines_of_repo(repo, pulls, user) + match listed_line(repo, p, user) {
            Some(l) => seq![l],
            None => Seq::<Seq<char>>::empty(),
        },
{
    let f = |q: PullView| listed_line(repo, q, user);
    assert(pulls.push(p).drop_last() =~= pulls);
    assert(pulls.push(p).last() == p);
    match f(p) {
        Some(l) => {},
        None => {
            assert(lines_of_repo(repo, pulls, user) + Seq::<Seq<char>>::empty() =~= lines_of_repo(repo, pulls, user));
        },
    }
}

/// A pull request without a list of requested logins is listed whoever the user is,
/// as long as it has a title.
pub proof fn lemma_no_reviewer_list_passes(
    repo: Seq<char>,
    pulls: Seq<PullView>,
    p: PullView,
    user: Seq<char>,
    title: Seq<char>,
)
    requires
        p.2 is None,
        p.1 == Some(title),
    ensures
        waits_on(p.2, user),
        lines_of_repo(repo, pulls.push(p), user) == lines_of_repo(repo, pulls, user).push(line_of(repo, p.0, title)),
{
    lemma_lines_push(repo, pulls, p, user);
}

/// A pull request whose list of requested logins does not hold the user adds no line.
pub proof fn lemma_other_reviewers_excluded(repo: Seq<char>, pulls: Seq<PullView>, p: PullView, user: Seq<char>)
    requires
        p.2 is Some,
        !p.2.unwrap().contains(user),
    ensures
        !waits_on(p.2, user),
        lines_of_repo(repo, pulls.push(p), user) == lines_of_repo(repo, pulls, user),
{
    lemma_lines_push(repo, pulls, p, user);
    assert(lines_of_repo(repo, pulls, user) + Seq::<Seq<char>>::empty() =~= lines_of_repo(repo, pulls, user));
}

/// A pull request without a title adds no line, whether or not it waits on the user.
pub proof fn lemma_untitled_skipped(repo: Seq<char>, pulls: Seq<PullView>, p: PullView, user: Seq<char>)
    requires
        p.1 is None,
    ensures
        lines_of_repo(repo, pulls.push(p), user) == lines_of_repo(repo, pulls, user),
        lines_of_repo(repo, pulls.push(p), user).len() == lines_of_repo(repo, pulls, user).len(),
{
    lemma_lines_push(repo, pulls, p, user);
    assert(lines_of_repo(repo, pulls, user) + Seq::<Seq<char>>::empty() =~= lines_of_repo(repo, pulls, user));
}

/// Identical fetched pages give identical lines: the result depends on the
/// pages and the username alone, with no state carried between calls.
pub proof fn lemma_collect_deterministic(
    pages: Seq<(Seq<char>, Seq<PullView>)>,
    user: Seq<char>,
    first: Seq<Seq<char>>,
    second: Seq<Seq<char>>,
)
    requires
        first == blocked_of(pages, user),
        second == blocked_of(pages, user),
    ensures
        first == second,
{
}

} // verus!
