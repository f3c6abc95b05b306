//! Launchable entities: their stable identity, the ranking-ready entry that
//! enrichment derives from it, and the ranking order of entries.
use vstd::prelude::*;

use crate::order::{lemma_text_le_total, lemma_text_le_transitive, text_le, text_le_exec};
use crate::prefs::{dormant, lookup_in, total_score, PrefRecord, PrefStore};

verus! {

/// The stable identity of an entity, the part that the discovery cache keeps.
#[derive(Debug, Clone, PartialEq, Eq)]
pub struct AppIdentity {
    /// Display name; the deduplication key.
    pub name: String,
    /// Launch command.
    pub command: String,
    /// Found on the search path rather than through a desktop entry.
    pub is_cli_only: bool,
}

/// An entity ready for ranking: its identity and the values derived from the
/// preference store.
#[derive(Debug, Clone, PartialEq, Eq)]
pub struct AppEntry {
    pub name: String,
    pub command: String,
    pub is_cli_only: bool,
    /// `score + usage * 10` of the entity's preference record.
    pub total_score: i64,
    /// Whether the entity has gone unused for more than thirty days.
    pub is_dormant: bool,
}

/// The identity part of an entry.
pub open spec fn identity_of(e: AppEntry) -> AppIdentity {
    AppIdentity { name: e.name, command: e.command, is_cli_only: e.is_cli_only }
}

/// The entry for `id` given the preference table `prefs` at time `now`.
pub open spec fn enriched(id: AppIdentity, prefs: Map<Seq<char>, PrefRecord>, now: u64) -> AppEntry {
    let rec = lookup_in(prefs, id.name@);
    AppEntry {
        name: id.name,
        command: id.command,
        is_cli_only: id.is_cli_only,
        total_score: total_score(rec.score, rec.usage) as i64,
        is_dormant: dormant(rec.last_used, now),
    }
}

/// The entries of all of `ids`, in their order.
pub open spec fn enriched_all(
    ids: Seq<AppIdentity>,
    prefs: Map<Seq<char>, PrefRecord>,
    now: u64,
) -> Seq<AppEntry> {
    ids.map_values(|id: AppIdentity| enriched(id, prefs, now))
}

/// `a` may stand before `b`: a higher total score, or an equal one and a name
/// that is no later.
pub open spec fn ranks_no_later(a: AppEntry, b: AppEntry) -> bool {
    a.total_score > b.total_score || (a.total_score == b.total_score && text_le(a.name@, b.name@))
}

/// Entries in descending total score, ties in ascending name.
pub open spec fn ranked(s: Seq<AppEntry>) -> bool {
    forall|i: int, j: int| 0 <= i < j < s.len() ==> ranks_no_later(#[trigger] s[i], #[trigger] s[j])
}

/// Any two entries are ordered one way or the other.
pub proof fn lemma_ranks_total(a: AppEntry, b: AppEntry)
    ensures
        ranks_no_later(a, b) || ranks_no_later(b, a),
{
    lemma_text_le_total(a.name@, b.name@);
}

/// The ranking order is transitive.
pub proof fn lemma_ranks_transitive(a: AppEntry, b: AppEntry, c: AppEntry)
    requires
        ranks_no_later(a, b),
        ranks_no_later(b, c),
    ensures
        ranks_no_later(a, c),
{
    if a.total_score == b.total_score && b.total_score == c.total_score {
        lemma_text_le_transitive(a.name@, b.name@, c.name@);
    }
}

impl AppIdentity {
    /// A copy with the same field values.
    pub fn duplicate(&self) -> (r: AppIdentity)
        ensures
            r == *self,
    {
        AppIdentity { name: self.name.clone(), command: self.command.clone(), is_cli_only: self.is_cli_only }
    }
}

impl AppEntry {
    /// The identity part of this entry, as the discovery cache stores it.
    pub fn identity(&self) -> (r: AppIdentity)
        ensures
            r == identity_of(*self),
    {
        AppIdentity { name: self.name.clone(), command: self.command.clone(), is_cli_only: self.is_cli_only }
    }

    /// A copy with the same field values.
    pub fn duplicate(&self) -> (r: AppEntry)
        ensures
            r == *self,
    {
        AppEntry {
            name: self.name.clone(),
            command: self.command.clone(),
            is_cli_only: self.is_cli_only,
            total_score: self.total_score,
            is_dormant: self.is_dormant,
        }
    }
}

/// Whether `a` may stand before `b` in the ranking.
pub fn ranks_no_later_exec(a: &AppEntry, b: &AppEntry) -> (r: bool)
    ensures
        r == ranks_no_later(*a, *b),
{
    if a.total_score != b.total_score {
        a.total_score > b.total_score
    } else {
        text_le_exec(a.name.as_str(), b.name.as_str())
    }
}

/// Inserts `x` into the ranked `v` after every entry that may stand before it.
fn insert_ranked(v: &mut Vec<AppEntry>, x: AppEntry)
    requires
        ranked(old(v)@),
    ensures
        ranked(final(v)@),
        final(v)@.to_multiset() == old(v)@.to_multiset().insert(x),
{
    let mut p: usize = 0;
    while p < v.len() && ranks_no_later_exec(&v[p], &x)
        invariant
            p <= v@.len(),
            forall|j: int| 0 <= j < p ==> ranks_no_later(#[trigger] v@[j], x),
        decreases v@.len() - p,
    {
        p = p + 1;
    }
    let ghost before = v@;
    proof {
        if p < before.len() {
            lemma_ranks_total(before[p as int], x);
        }
        assert forall|j: int| p <= j < before.len() implies ranks_no_later(x, #[trigger] before[j]) by {
            if j > p {
                lemma_ranks_transitive(x, before[p as int], before[j]);
            }
        }
        vstd::seq_lib::to_multiset_insert(before, p as int, x);
    }
    v.insert(p, x);
    assert(v@ == before.insert(p as int, x));
    assert forall|i: int, j: int| 0 <= i < j < v@.len() implies ranks_no_later(
        #[trigger] v@[i],
        #[trigger] v@[j],
    ) by {
        if j < p {
        } else if j == p {
        } else if i < p {
            lemma_ranks_transitive(v@[i], x, v@[j]);
        } else if i == p {
        } else {
            assert(v@[i] == before[i - 1] && v@[j] == before[j - 1]);
        }
    }
}

/// Enriches each identity from the preference store at time `now`, then ranks
/// the entries: descending total score, ties in ascending name.
pub fn enrich(ids: &Vec<AppIdentity>, prefs: &PrefStore, now: u64) -> (r: Vec<AppEntry>)
    requires
        prefs.wf(),
    ensures
        r@.to_multiset() == enriched_all(ids@, prefs@, now).to_multiset(),
        ranked(r@),
{
    let mut r: Vec<AppEntry> = Vec::new();
    let mut i: usize = 0;
    assert(r@ =~= enriched_all(ids@.take(0), prefs@, now));
    while i < ids.len()
        invariant
            i <= ids@.len(),
            prefs.wf(),
            ranked(r@),
            r@.to_multiset() == enriched_all(ids@.take(i as int), prefs@, now).to_multiset(),
        decreases ids@.len() - i,
    {
        let id = &ids[i];
        let rec = prefs.lookup(id.name.as_str());
        let (total, is_dormant) = rec.compose(now);
        let e = AppEntry {
            name: id.name.clone(),
            command: id.command.clone(),
            is_cli_only: id.is_cli_only,
            total_score: total,
            is_dormant,
        };
        assert(e == enriched(ids@[i as int], prefs@, now));
        insert_ranked(&mut r, e);
        proof {
            assert(enriched_all(ids@.take(i + 1), prefs@, now) =~= enriched_all(
                ids@.take(i as int),
                prefs@,
                now,
            ).push(e));
            vstd::seq_lib::to_multiset_build(enriched_all(ids@.take(i as int), prefs@, now), e);
        }
        i = i + 1;
    }
    assert(ids@.take(i as int) =~= ids@);
    r
}

/// The identities of the entries, in order: what the discovery cache stores.
pub fn identities(entries: &Vec<AppEntry>) -> (r: Vec<AppIdentity>)
    ensures
        r@ == entries@.map_values(|e: AppEntry| identity_of(e)),
{
    let mut r: Vec<AppIdentity> = Vec::new();
    let mut i: usize = 0;
    while i < entries.len()
        invariant
            i <= entries@.len(),
            r@ == entries@.take(i as int).map_values(|e: AppEntry| identity_of(e)),
        decreases entries@.len() - i,
    {
        r.push(entries[i].identity());
        assert(entries@.take(i + 1).map_values(|e: AppEntry| identity_of(e)) =~= entries@.take(
            i as int,
        ).map_values(|e: AppEntry| identity_of(e)).push(identity_of(entries@[i as int])));
        i = i + 1;
    }
    assert(entries@.take(i as int) =~= entries@);
    r
}

/// What a read of the discovery cache is good for: a missing, unreadable or
/// empty cache is a miss, anything else is used as it stands.
pub fn usable_cache(loaded: Option<Vec<AppIdentity>>) -> (r: Option<Vec<AppIdentity>>)
    ensures
        match loaded {
            Some(v) => if v@.len() > 0 {
                r == Some(v)
            } else {
                r is None
            },
            None => r is None,
        },
{
    match loaded {
        Some(v) => if v.len() > 0 {
            Some(v)
        } else {
            None
        },
        None => None,
    }
}

} // verus!
