//! The two fuzzy ranking pipelines: the bounded in-memory application list and
//! the query-driven file search.
use vstd::prelude::*;

use fuzzy_matcher::skim::SkimMatcherV2;
use fuzzy_matcher::FuzzyMatcher;

use crate::entries::{ranked, AppEntry};
use crate::rank::{by_rank, lemma_rank_members, sort_scored, Scored};

verus! {

/// Most entries that an application query returns.
pub const APP_RESULT_LIMIT: usize = 50;

/// How many candidates a file walk collects for each requested result.
pub const CANDIDATES_PER_RESULT: usize = 10;

/// The affinity that the skim matcher (default settings) gives `pattern`
/// against `choice`, or `None` when it does not match.
pub uninterp spec fn skim_score(choice: Seq<char>, pattern: Seq<char>) -> Option<i64>;

/// Relies on `fuzzy_matcher::skim::SkimMatcherV2::fuzzy_match` with the default
/// matcher: its result depends on the two strings alone, and an empty pattern
/// matches with affinity zero.
#[verifier::external_body]
fn fuzzy_score(choice: &str, pattern: &str) -> (r: Option<i64>)
    ensures
        r == skim_score(choice@, pattern@),
        pattern@.len() == 0 ==> r == Some(0i64),
{
    SkimMatcherV2::default().fuzzy_match(choice, pattern)
}

/// The lower-case form of `s` as `str::to_lowercase` gives it.
pub uninterp spec fn lower_of(s: Seq<char>) -> Seq<char>;

/// Relies on `str::to_lowercase`: the result depends on the characters alone,
/// and the empty string stays empty.
#[verifier::external_body]
fn lowercase(s: &str) -> (r: String)
    ensures
        r@ == lower_of(s@),
        s@.len() == 0 ==> r@.len() == 0,
{
    s.to_lowercase()
}

/// The smaller of two integers.
pub open spec fn min(a: int, b: int) -> int {
    if a <= b {
        a
    } else {
        b
    }
}

/// The applications among the first `n` whose names match `q`, with their
/// affinity, total score and position, in list order.
pub open spec fn app_matches(apps: Seq<AppEntry>, q: Seq<char>, n: int) -> Seq<Scored>
    decreases n,
{
    if n <= 0 {
        Seq::empty()
    } else {
        let rest = app_matches(apps, q, n - 1);
        match skim_score(apps[n - 1].name@, q) {
            Some(s) => rest.push((s, apps[n - 1].total_score, (n - 1) as usize)),
            None => rest,
        }
    }
}

/// What a non-empty query returns: the matching applications by descending
/// affinity, then descending total score, then list order; at most fifty.
pub open spec fn app_search_result(apps: Seq<AppEntry>, q: Seq<char>) -> Seq<AppEntry> {
    let order = by_rank(app_matches(apps, q, apps.len() as int));
    order.take(min(APP_RESULT_LIMIT as int, order.len() as int)).map_values(
        |s: Scored| apps[s.2 as int],
    )
}

/// An entry is shown when dormant entries are shown or it is not dormant.
pub open spec fn visible(e: AppEntry, show_dormant: bool) -> bool {
    show_dormant || !e.is_dormant
}

/// The visibility test as a predicate for filtering.
pub open spec fn visible_filter(show_dormant: bool) -> spec_fn(AppEntry) -> bool {
    |e: AppEntry| visible(e, show_dormant)
}

/// What the application pipeline shows for `q`: the whole list for an empty
/// query, else the search result; then the entries that are visible.
pub open spec fn app_view(apps: Seq<AppEntry>, q: Seq<char>, show_dormant: bool) -> Seq<AppEntry> {
    let shown = if q.len() == 0 {
        apps
    } else {
        app_search_result(apps, q)
    };
    shown.filter(visible_filter(show_dormant))
}

/// Every item of the matches is a position in the list whose name matches.
pub proof fn lemma_app_matches_sound(apps: Seq<AppEntry>, q: Seq<char>, n: int)
    requires
        0 <= n <= apps.len(),
        apps.len() <= usize::MAX,
    ensures
        forall|k: int|
            0 <= k < app_matches(apps, q, n).len() ==> {
                let s = #[trigger] app_matches(apps, q, n)[k];
                &&& (s.2 as int) < n
                &&& skim_score(apps[s.2 as int].name@, q) == Some(s.0)
            },
    decreases n,
{
    if n > 0 {
        lemma_app_matches_sound(apps, q, n - 1);
        let rest = app_matches(apps, q, n - 1);
        assert forall|k: int| 0 <= k < app_matches(apps, q, n).len() implies {
            let s = #[trigger] app_matches(apps, q, n)[k];
            &&& (s.2 as int) < n
            &&& skim_score(apps[s.2 as int].name@, q) == Some(s.0)
        } by {
            if k < rest.len() {
                assert(app_matches(apps, q, n)[k] == rest[k]);
            }
        }
    }
}

/// A non-empty query returns only applications whose names match it.
pub proof fn lemma_search_returns_matches(apps: Seq<AppEntry>, q: Seq<char>)
    requires
        apps.len() <= usize::MAX,
    ensures
        forall|k: int|
            0 <= k < app_search_result(apps, q).len() ==> (#[trigger] skim_score(
                app_search_result(apps, q)[k].name@,
                q,
            )) is Some,
{
    let m = app_matches(apps, q, apps.len() as int);
    let order = by_rank(m);
    lemma_app_matches_sound(apps, q, apps.len() as int);
    lemma_rank_members(m);
    assert forall|k: int| 0 <= k < app_search_result(apps, q).len() implies (#[trigger] skim_score(
        app_search_result(apps, q)[k].name@,
        q,
    )) is Some by {
        let s = order[k];
        assert(m.contains(s));
        let j = choose|j: int| 0 <= j < m.len() && m[j] == s;
        assert(m[j] == s);
    }
}

/// Ranks `apps` against the non-empty-or-empty query `query` as the
/// application pipeline does before the dormancy filter.
pub fn fuzzy_search_apps(query: &str, apps: &Vec<AppEntry>) -> (r: Vec<AppEntry>)
    ensures
        r@ == app_search_result(apps@, query@),
{
    let mut scored: Vec<Scored> = Vec::new();
    let mut i: usize = 0;
    while i < apps.len()
        invariant
            i <= apps@.len(),
            scored@ == app_matches(apps@, query@, i as int),
            forall|k: int| 0 <= k < scored@.len() ==> (#[trigger] scored@[k].2 as int) < i,
        decreases apps@.len() - i,
    {
        let a = &apps[i];
        match fuzzy_score(a.name.as_str(), query) {
            Some(s) => {
                scored.push((s, a.total_score, i));
            },
            None => {},
        }
        i = i + 1;
    }
    let order = sort_scored(&scored);
    proof {
        lemma_rank_members(scored@);
        assert forall|j: int| 0 <= j < order@.len() implies (#[trigger] order@[j].2 as int)
            < apps@.len() by {
            let t = choose|t: int| 0 <= t < scored@.len() && scored@[t] == order@[j];
            assert(scored@[t] == order@[j]);
        }
    }
    let n = if order.len() < APP_RESULT_LIMIT {
        order.len()
    } else {
        APP_RESULT_LIMIT
    };
    let mut r: Vec<AppEntry> = Vec::new();
    let mut k: usize = 0;
    while k < n
        invariant
            k <= n,
            n <= order@.len(),
            order@ == by_rank(scored@),
            scored@ == app_matches(apps@, query@, apps@.len() as int),
            forall|j: int| 0 <= j < order@.len() ==> (#[trigger] order@[j].2 as int) < apps@.len(),
            r@ == order@.take(k as int).map_values(|s: Scored| apps@[s.2 as int]),
        decreases n - k,
    {
        let idx = order[k].2;
        r.push(apps[idx].duplicate());
        assert(order@.take(k + 1).map_values(|s: Scored| apps@[s.2 as int]) =~= order@.take(
            k as int,
        ).map_values(|s: Scored| apps@[s.2 as int]).push(apps@[idx as int]));
        k = k + 1;
    }
    r
}

/// Filtering keeps the ranking order.
pub proof fn lemma_filter_keeps_ranked(s: Seq<AppEntry>, show_dormant: bool)
    requires
        ranked(s),
    ensures
        ranked(s.filter(visible_filter(show_dormant))),
    decreases s.len(),
{
    broadcast use vstd::seq_lib::group_filter_ensures;

    reveal(Seq::filter);
    let p = visible_filter(show_dormant);
    if s.len() > 0 {
        let init = s.drop_last();
        assert(ranked(init));
        lemma_filter_keeps_ranked(init, show_dormant);
        let f = init.filter(p);
        if p(s.last()) {
            assert(s.filter(p) == f.push(s.last()));
            assert forall|i: int, j: int|
                0 <= i < j < s.filter(p).len() implies crate::entries::ranks_no_later(
                #[trigger] s.filter(p)[i],
                #[trigger] s.filter(p)[j],
            ) by {
                if j == f.len() {
                    assert(f.contains(f[i]));
                    init.lemma_filter_contains_rev(p, f[i]);
                    let t = choose|t: int| 0 <= t < init.len() && init[t] == f[i];
                    assert(s[t] == f[i]);
                    assert(s[s.len() - 1] == s.last());
                } else {
                    assert(s.filter(p)[i] == f[i] && s.filter(p)[j] == f[j]);
                }
            }
        } else {
            assert(s.filter(p) == f);
        }
    }
}

/// An empty application query shows the whole list, ranked as it was, with
/// only the dormancy filter applied; a non-empty one shows only entries whose
/// names match the query.
pub proof fn lemma_app_view(apps: Seq<AppEntry>, q: Seq<char>, show_dormant: bool)
    requires
        apps.len() <= usize::MAX,
        ranked(apps),
    ensures
        q.len() == 0 ==> app_view(apps, q, show_dormant) == apps.filter(visible_filter(show_dormant))
            && ranked(app_view(apps, q, show_dormant)),
        q.len() > 0 ==> forall|k: int|
            0 <= k < app_view(apps, q, show_dormant).len() ==> (#[trigger] skim_score(
                app_view(apps, q, show_dormant)[k].name@,
                q,
            )) is Some,
{
    broadcast use vstd::seq_lib::group_filter_ensures;

    lemma_filter_keeps_ranked(apps, show_dormant);
    if q.len() > 0 {
        lemma_search_returns_matches(apps, q);
        let shown = app_search_result(apps, q);
        let v = app_view(apps, q, show_dormant);
        assert forall|k: int| 0 <= k < v.len() implies (#[trigger] skim_score(v[k].name@, q)) is Some by {
            assert(v.contains(v[k]));
            shown.lemma_filter_contains_rev(visible_filter(show_dormant), v[k]);
            let t = choose|t: int| 0 <= t < shown.len() && shown[t] == v[k];
            assert(skim_score(shown[t].name@, q) is Some);
        }
    }
}

/// The entries of `apps` that are visible, in order.
pub fn visible_only(apps: Vec<AppEntry>, show_dormant: bool) -> (r: Vec<AppEntry>)
    ensures
        r@ == apps@.filter(visible_filter(show_dormant)),
{
    let ghost p = visible_filter(show_dormant);
    let mut r: Vec<AppEntry> = Vec::new();
    let mut i: usize = 0;
    proof {
        reveal(Seq::filter);
    }
    assert(apps@.take(0).filter(p) =~= Seq::<AppEntry>::empty());
    while i < apps.len()
        invariant
            i <= apps@.len(),
            p == visible_filter(show_dormant),
            r@ == apps@.take(i as int).filter(p),
        decreases apps@.len() - i,
    {
        let e = &apps[i];
        assert(apps@.take(i + 1).drop_last() =~= apps@.take(i as int));
        assert(apps@.take(i + 1).last() == apps@[i as int]);
        proof {
            reveal(Seq::filter);
        }
        if show_dormant || !e.is_dormant {
            r.push(e.duplicate());
        }
        i = i + 1;
    }
    assert(apps@.take(i as int) =~= apps@);
    r
}

/// The application pipeline: the whole ranked list for an empty query, the
/// fuzzy search result otherwise, without dormant entries unless they are shown.
pub fn search_apps(query: &str, apps: &Vec<AppEntry>, show_dormant: bool) -> (r: Vec<AppEntry>)
    ensures
        r@ == app_view(apps@, query@, show_dormant),
{
    let shown = if query.is_empty() {
        let mut all: Vec<AppEntry> = Vec::new();
        let mut i: usize = 0;
        while i < apps.len()
            invariant
                i <= apps@.len(),
                all@ == apps@.take(i as int),
            decreases apps@.len() - i,
        {
            all.push(apps[i].duplicate());
            assert(apps@.take(i + 1) =~= apps@.take(i as int).push(apps@[i as int]));
            i = i + 1;
        }
        assert(apps@.take(i as int) =~= apps@);
        all
    } else {
        fuzzy_search_apps(query, apps)
    };
    visible_only(shown, show_dormant)
}

/// Every character of `q` occurs somewhere in `p`.
pub open spec fn all_chars_in(q: Seq<char>, p: Seq<char>) -> bool {
    forall|i: int| 0 <= i < q.len() ==> p.contains(#[trigger] q[i])
}

/// Whether `c` occurs in `s`.
pub fn contains_char(s: &str, c: char) -> (r: bool)
    ensures
        r == s@.contains(c),
{
    let n = s.unicode_len();
    let mut i: usize = 0;
    while i < n
        invariant
            n == s@.len(),
            i <= n,
            forall|j: int| 0 <= j < i ==> s@[j] != c,
        decreases n - i,
    {
        if s.get_char(i) == c {
            return true;
        }
        i = i + 1;
    }
    false
}

/// Whether every character of `q` occurs somewhere in `p`.
pub fn all_chars_in_exec(q: &str, p: &str) -> (r: bool)
    ensures
        r == all_chars_in(q@, p@),
{
    let n = q.unicode_len();
    let mut i: usize = 0;
    while i < n
        invariant
            n == q@.len(),
            i <= n,
            forall|j: int| 0 <= j < i ==> p@.contains(#[trigger] q@[j]),
        decreases n - i,
    {
        if !contains_char(p, q.get_char(i)) {
            return false;
        }
        i = i + 1;
    }
    true
}

/// The candidates among the first `n` that match `q`, with their affinity and
/// position, in walk order.
pub open spec fn file_matches(paths: Seq<Seq<char>>, q: Seq<char>, n: int) -> Seq<Scored>
    decreases n,
{
    if n <= 0 {
        Seq::empty()
    } else {
        let rest = file_matches(paths, q, n - 1);
        match skim_score(paths[n - 1], q) {
            Some(s) => rest.push((s, 0i64, (n - 1) as usize)),
            None => rest,
        }
    }
}

/// The file pipeline's answer over the collected candidates: those that match,
/// by descending affinity (ties in walk order), at most `limit`.
pub open spec fn file_search_result(paths: Seq<Seq<char>>, q: Seq<char>, limit: usize) -> Seq<
    Seq<char>,
> {
    let order = by_rank(file_matches(paths, q, paths.len() as int));
    order.take(min(limit as int, order.len() as int)).map_values(|s: Scored| paths[s.2 as int])
}

/// How many candidates a walk for `limit` results collects at most.
pub open spec fn candidate_cap(limit: usize) -> usize {
    if limit <= usize::MAX / CANDIDATES_PER_RESULT {
        (limit * CANDIDATES_PER_RESULT) as usize
    } else {
        usize::MAX
    }
}

/// Searches files below a home directory.
pub struct FileSearcher {
    /// The root of every walk.
    pub home: String,
}

/// The state of one file query while the walk runs: the query, the result limit,
/// and the candidates collected so far.
pub struct FileWalk {
    query: String,
    query_lower: String,
    limit: usize,
    candidates: Vec<String>,
}

impl FileSearcher {
    pub fn new(home: String) -> (s: FileSearcher)
        ensures
            s.home == home,
    {
        FileSearcher { home }
    }

    /// Starts a query for at most `limit` results. An empty query starts no walk
    /// and has no result.
    pub fn start(&self, query: &str, limit: usize) -> (r: Option<FileWalk>)
        ensures
            r is None <==> query@.len() == 0,
            r matches Some(w) ==> w.wf() && w.query() == query@ && w.limit() == limit
                && w.candidates().len() == 0,
    {
        if query.is_empty() {
            return None;
        }
        let w = FileWalk {
            query: String::from_str(query),
            query_lower: lowercase(query),
            limit,
            candidates: Vec::new(),
        };
        assert(w.candidates() =~= Seq::<Seq<char>>::empty());
        Some(w)
    }
}

impl FileWalk {
    /// The query text.
    pub closed spec fn query(&self) -> Seq<char> {
        self.query@
    }

    /// The requested number of results.
    pub closed spec fn limit(&self) -> usize {
        self.limit
    }

    /// The candidate paths collected so far, in walk order.
    pub closed spec fn candidates(&self) -> Seq<Seq<char>> {
        self.candidates@.map_values(|s: String| s@)
    }

    pub closed spec fn wf(&self) -> bool {
        &&& self.query_lower@ == lower_of(self.query@)
        &&& self.candidates@.len() <= candidate_cap(self.limit)
    }

    /// Whether the walk should go on: fewer candidates than the cap.
    pub fn wants_more(&self) -> (r: bool)
        requires
            self.wf(),
        ensures
            r == (self.candidates().len() < candidate_cap(self.limit())),
    {
        self.candidates.len() < self.cap()
    }

    fn cap(&self) -> (c: usize)
        ensures
            c == candidate_cap(self.limit),
    {
        if self.limit <= usize::MAX / CANDIDATES_PER_RESULT {
            self.limit * CANDIDATES_PER_RESULT
        } else {
            usize::MAX
        }
    }

    /// Offers a file that the walk found. It becomes a candidate when the cap is
    /// not reached and every character of the lower-cased query occurs in the
    /// lower-cased path.
    pub fn offer(&mut self, path: &str)
        requires
            old(self).wf(),
        ensures
            final(self).wf(),
            final(self).query() == old(self).query(),
            final(self).limit() == old(self).limit(),
            final(self).candidates() == if old(self).candidates().len() < candidate_cap(
                old(self).limit(),
            ) && all_chars_in(lower_of(old(self).query()), lower_of(path@)) {
                old(self).candidates().push(path@)
            } else {
                old(self).candidates()
            },
    {
        if self.candidates.len() >= self.cap() {
            return;
        }
        let path_lower = lowercase(path);
        if all_chars_in_exec(self.query_lower.as_str(), path_lower.as_str()) {
            self.candidates.push(String::from_str(path));
            assert(self.candidates() =~= old(self).candidates().push(path@));
        }
    }

    /// Scores the candidates against the query and returns the best `limit` of
    /// them, by descending affinity; equal affinities keep walk order.
    pub fn finish(&self) -> (r: Vec<String>)
        requires
            self.wf(),
        ensures
            r@.map_values(|s: String| s@) == file_search_result(
                self.candidates(),
                self.query(),
                self.limit(),
            ),
    {
        let ghost paths = self.candidates();
        let mut scored: Vec<Scored> = Vec::new();
        let mut i: usize = 0;
        while i < self.candidates.len()
            invariant
                i <= self.candidates@.len(),
                paths == self.candidates(),
                scored@ == file_matches(paths, self.query@, i as int),
                forall|k: int| 0 <= k < scored@.len() ==> (#[trigger] scored@[k].2 as int) < i,
            decreases self.candidates@.len() - i,
        {
            match fuzzy_score(self.candidates[i].as_str(), self.query.as_str()) {
                Some(s) => {
                    scored.push((s, 0i64, i));
                },
                None => {},
            }
            i = i + 1;
        }
        let order = sort_scored(&scored);
        proof {
            lemma_rank_members(scored@);
            assert forall|j: int| 0 <= j < order@.len() implies (#[trigger] order@[j].2 as int)
                < paths.len() by {
                let t = choose|t: int| 0 <= t < scored@.len() && scored@[t] == order@[j];
                assert(scored@[t] == order@[j]);
            }
        }
        let n = if order.len() < self.limit {
            order.len()
        } else {
            self.limit
        };
        let mut r: Vec<String> = Vec::new();
        let mut k: usize = 0;
        while k < n
            invariant
                k <= n,
                n <= order@.len(),
                paths == self.candidates(),
                forall|j: int| 0 <= j < order@.len() ==> (#[trigger] order@[j].2 as int) < paths.len(),
                r@.map_values(|s: String| s@) == order@.take(k as int).map_values(
                    |s: Scored| paths[s.2 as int],
                ),
            decreases n - k,
        {
            let idx = order[k].2;
            r.push(self.candidates[idx].clone());
            assert(r@.map_values(|s: String| s@) =~= order@.take(k as int).map_values(
                |s: Scored| paths[s.2 as int],
            ).push(paths[idx as int]));
            assert(order@.take(k + 1).map_values(|s: Scored| paths[s.2 as int]) =~= order@.take(
                k as int,
            ).map_values(|s: Scored| paths[s.2 as int]).push(paths[idx as int]));
            k = k + 1;
        }
        r
    }
}

} // verus!
