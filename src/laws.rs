//! Properties that relate the library's operations to each other.
use vstd::prelude::*;

use crate::entries::{enriched, enriched_all, identity_of, ranked, ranks_no_later, AppEntry, AppIdentity};
use crate::order::lemma_text_le_antisymmetric;
use crate::prefs::{
    default_record, dormant, launched, lookup_in, total_score, PrefRecord, DORMANT_AFTER_SECS,
};

verus! {

/// Every entry that enrichment yields carries `score + usage * 10` and the
/// dormancy of the record that the store holds for its name at that moment,
/// whatever entry values the identities came from before.
pub proof fn lemma_enriched_values(
    ids: Seq<AppIdentity>,
    prefs: Map<Seq<char>, PrefRecord>,
    now: u64,
    r: Seq<AppEntry>,
)
    requires
        r.to_multiset() == enriched_all(ids, prefs, now).to_multiset(),
    ensures
        forall|k: int|
            0 <= k < r.len() ==> {
                let rec = lookup_in(prefs, (#[trigger] r[k]).name@);
                &&& r[k].total_score == total_score(rec.score, rec.usage)
                &&& r[k].is_dormant == dormant(rec.last_used, now)
            },
{
    broadcast use vstd::seq_lib::group_to_multiset_ensures;

    let all = enriched_all(ids, prefs, now);
    assert forall|k: int| 0 <= k < r.len() implies {
        let rec = lookup_in(prefs, (#[trigger] r[k]).name@);
        &&& r[k].total_score == total_score(rec.score, rec.usage)
        &&& r[k].is_dormant == dormant(rec.last_used, now)
    } by {
        assert(r.contains(r[k]));
        assert(r.to_multiset().count(r[k]) > 0);
        assert(all.to_multiset().count(r[k]) > 0);
        assert(all.contains(r[k]));
        let j = choose|j: int| 0 <= j < all.len() && all[j] == r[k];
        assert(all[j] == enriched(ids[j], prefs, now));
        let rec = lookup_in(prefs, ids[j].name@);
        assert(i32::MIN as int + i32::MIN as int * 10 <= total_score(rec.score, rec.usage));
        assert(total_score(rec.score, rec.usage) <= i32::MAX as int + i32::MAX as int * 10);
    }
}

/// Enriching again, with no change to the store in between, gives each entity
/// the same total score and dormancy; the identity is what enrichment keeps.
pub proof fn lemma_enrich_idempotent(id: AppIdentity, prefs: Map<Seq<char>, PrefRecord>, now: u64)
    ensures
        enriched(identity_of(enriched(id, prefs, now)), prefs, now) == enriched(id, prefs, now),
        identity_of(enriched(id, prefs, now)) == id,
{
}

/// Last used one second more than thirty days ago is dormant; exactly thirty
/// days ago is not. (At `now` of thirty days and one second, the first time is
/// zero, which means never used.)
pub proof fn lemma_dormancy_boundary(now: u64)
    requires
        now > DORMANT_AFTER_SECS + 1,
    ensures
        dormant((now - 2592001) as u64, now),
        !dormant((now - 2592000) as u64, now),
{
}

/// A launch adds one use and moves the last use to the launch time; marking an
/// absent name as a terminal application creates a record with no use and no
/// score.
pub proof fn lemma_launch_and_tui(
    prefs: Map<Seq<char>, PrefRecord>,
    name: Seq<char>,
    t: u64,
    t2: u64,
    absent: Seq<char>,
)
    requires
        prefs.contains_key(name),
        prefs[name].usage == 2,
        prefs[name].last_used == t,
        t2 > t,
        !prefs.contains_key(absent),
    ensures
        ({
            let after = prefs.insert(name, launched(lookup_in(prefs, name), t2));
            after[name].usage == 3 && after[name].last_used == t2
        }),
        ({
            let after = prefs.insert(absent, PrefRecord { is_tui: true, ..lookup_in(prefs, absent) });
            after[absent] == PrefRecord { is_tui: true, ..default_record() } && after[absent].usage
                == 0 && after[absent].score == 0 && after[absent].is_tui
        }),
{
}

/// No two entries share a name.
pub open spec fn entry_names_unique(s: Seq<AppEntry>) -> bool {
    forall|i: int, j: int| 0 <= i < j < s.len() ==> (#[trigger] s[i]).name@ != (#[trigger] s[j]).name@
}

/// No two identities share a name, as within one discovery pass.
pub open spec fn identity_names_unique(s: Seq<AppIdentity>) -> bool {
    forall|i: int, j: int| 0 <= i < j < s.len() ==> (#[trigger] s[i]).name@ != (#[trigger] s[j]).name@
}

/// Two ranked sequences of the same entries, no two of one name, are the same
/// sequence: with distinct names the ranking order leaves no choice.
pub proof fn lemma_ranked_unique(r1: Seq<AppEntry>, r2: Seq<AppEntry>)
    requires
        ranked(r1),
        ranked(r2),
        r1.to_multiset() == r2.to_multiset(),
        entry_names_unique(r1),
    ensures
        r1 == r2,
    decreases r1.len(),
{
    broadcast use vstd::seq_lib::group_to_multiset_ensures;

    if r1.len() == 0 {
        assert(r2.to_multiset().len() == 0);
        assert(r2 =~= r1);
    } else {
        assert(r1.to_multiset().len() == r1.len());
        assert(r2.to_multiset().len() == r2.len());
        assert(r2.len() == r1.len());
        let x = r1[0];
        let y = r2[0];
        assert(r2.contains(y));
        assert(r2.to_multiset().count(y) > 0);
        assert(r1.contains(y));
        let j = choose|j: int| 0 <= j < r1.len() && r1[j] == y;
        assert(r1.contains(x));
        assert(r1.to_multiset().count(x) > 0);
        assert(r2.contains(x));
        let k = choose|k: int| 0 <= k < r2.len() && r2[k] == x;
        if j > 0 {
            assert(ranks_no_later(r1[0], r1[j]));
            if k > 0 {
                assert(ranks_no_later(r2[0], r2[k]));
                assert(x.total_score == y.total_score);
                lemma_text_le_antisymmetric(x.name@, y.name@);
            }
            assert(r1[0].name@ != r1[j].name@);
            assert(false);
        }
        assert(x == y);
        let t1 = r1.drop_first();
        let t2 = r2.drop_first();
        assert(r1.remove(0) =~= t1);
        assert(r2.remove(0) =~= t2);
        assert(t1.to_multiset() == r1.to_multiset().remove(x));
        assert(t2.to_multiset() == r2.to_multiset().remove(y));
        assert(ranked(t1)) by {
            assert forall|a: int, b: int| 0 <= a < b < t1.len() implies ranks_no_later(
                #[trigger] t1[a],
                #[trigger] t1[b],
            ) by {
                assert(t1[a] == r1[a + 1] && t1[b] == r1[b + 1]);
            }
        }
        assert(ranked(t2)) by {
            assert forall|a: int, b: int| 0 <= a < b < t2.len() implies ranks_no_later(
                #[trigger] t2[a],
                #[trigger] t2[b],
            ) by {
                assert(t2[a] == r2[a + 1] && t2[b] == r2[b + 1]);
            }
        }
        assert(entry_names_unique(t1)) by {
            assert forall|a: int, b: int| 0 <= a < b < t1.len() implies (#[trigger] t1[a]).name@
                != (#[trigger] t1[b]).name@ by {
                assert(t1[a] == r1[a + 1] && t1[b] == r1[b + 1]);
            }
        }
        lemma_ranked_unique(t1, t2);
        assert(r1 =~= seq![x] + t1);
        assert(r2 =~= seq![y] + t2);
    }
}

/// Enriching the result of an enrichment again, with no change to the store in
/// between and at the same time, gives back the same sequence: the same entries
/// in the same order. Names are unique within a discovery pass.
pub proof fn lemma_enrich_repeatable(
    ids: Seq<AppIdentity>,
    prefs: Map<Seq<char>, PrefRecord>,
    now: u64,
    r1: Seq<AppEntry>,
    r2: Seq<AppEntry>,
)
    requires
        identity_names_unique(ids),
        r1.to_multiset() == enriched_all(ids, prefs, now).to_multiset(),
        ranked(r1),
        r2.to_multiset() == enriched_all(
            r1.map_values(|e: AppEntry| identity_of(e)),
            prefs,
            now,
        ).to_multiset(),
        ranked(r2),
    ensures
        r2 == r1,
{
    broadcast use vstd::seq_lib::group_to_multiset_ensures;

    let all = enriched_all(ids, prefs, now);
    assert(r1.to_multiset().len() == r1.len());
    assert(all.to_multiset().len() == all.len());
    assert(r1.len() == all.len());
    assert forall|k: int| 0 <= k < r1.len() implies exists|j: int|
        0 <= j < ids.len() && #[trigger] r1[k] == enriched(ids[j], prefs, now) by {
        assert(r1.contains(r1[k]));
        assert(r1.to_multiset().count(r1[k]) > 0);
        assert(all.contains(r1[k]));
        let j = choose|j: int| 0 <= j < all.len() && all[j] == r1[k];
        assert(all[j] == enriched(ids[j], prefs, now));
    }
    let again = enriched_all(r1.map_values(|e: AppEntry| identity_of(e)), prefs, now);
    assert forall|k: int| 0 <= k < r1.len() implies #[trigger] again[k] == r1[k] by {
        let j = choose|j: int| 0 <= j < ids.len() && #[trigger] r1[k] == enriched(ids[j], prefs, now);
        lemma_enrich_idempotent(ids[j], prefs, now);
    }
    assert(again =~= r1);
    assert(all.no_duplicates()) by {
        assert forall|a: int, b: int| 0 <= a < all.len() && 0 <= b < all.len() && a != b implies all[a]
            != all[b] by {
            assert(all[a].name == ids[a].name && all[b].name == ids[b].name);
            if a < b {
                assert(ids[a].name@ != ids[b].name@);
            } else {
                assert(ids[b].name@ != ids[a].name@);
            }
        }
    }
    all.lemma_multiset_has_no_duplicates();
    r1.lemma_multiset_has_no_duplicates_conv();
    assert(entry_names_unique(r1)) by {
        assert forall|a: int, b: int| 0 <= a < b < r1.len() implies (#[trigger] r1[a]).name@
            != (#[trigger] r1[b]).name@ by {
            assert(r1.contains(r1[a]) && r1.contains(r1[b]));
            assert(r1.to_multiset().count(r1[a]) > 0 && r1.to_multiset().count(r1[b]) > 0);
            assert(all.contains(r1[a]) && all.contains(r1[b]));
            let p = choose|p: int| 0 <= p < all.len() && all[p] == r1[a];
            let q = choose|q: int| 0 <= q < all.len() && all[q] == r1[b];
            assert(r1[a] != r1[b]);
            assert(p != q);
            assert(all[p].name == ids[p].name && all[q].name == ids[q].name);
            if p < q {
                assert(ids[p].name@ != ids[q].name@);
            } else {
                assert(ids[q].name@ != ids[p].name@);
            }
        }
    }
    lemma_ranked_unique(r1, r2);
}

} // verus!
