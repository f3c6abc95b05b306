//! Usage preferences: the per-name record, the score compositor, and an
//! in-memory model of the preference store with its upsert operations.
use vstd::prelude::*;

verus! {

/// Weight of one recorded launch in the total score.
pub const USAGE_WEIGHT: i64 = 10;

/// Thirty days in seconds: an entity unused for longer than this is dormant.
pub const DORMANT_AFTER_SECS: u64 = 2592000;

/// The durable usage statistics of one entity.
#[derive(Debug, Clone, Copy, PartialEq, Eq, Structural)]
pub struct PrefRecord {
    /// Whether the entity is launched inside a terminal.
    pub is_tui: bool,
    /// Base score, set only by bulk seeding.
    pub score: i32,
    /// Number of recorded launches.
    pub usage: i32,
    /// Time of the last launch in seconds since the epoch; zero when never used.
    pub last_used: u64,
}

/// The record that stands for a name the store does not hold.
pub open spec fn default_record() -> PrefRecord {
    PrefRecord { is_tui: false, score: 0, usage: 0, last_used: 0 }
}

/// `score + usage * 10`.
pub open spec fn total_score(score: i32, usage: i32) -> int {
    score as int + usage as int * USAGE_WEIGHT as int
}

/// Used at least once, and last used more than thirty days before `now`.
pub open spec fn dormant(last_used: u64, now: u64) -> bool {
    last_used != 0 && now as int - last_used as int > DORMANT_AFTER_SECS as int
}

/// The usage counter after one more launch; it stops at the largest value a
/// record can hold.
pub open spec fn next_usage(usage: i32) -> i32 {
    if usage < i32::MAX {
        (usage + 1) as i32
    } else {
        usage
    }
}

/// What a launch at `now` makes of the record `r`.
pub open spec fn launched(r: PrefRecord, now: u64) -> PrefRecord {
    PrefRecord { usage: next_usage(r.usage), last_used: now, ..r }
}

impl PrefRecord {
    /// The record of a name that was never seen: no terminal, no score, no use.
    pub fn defaults() -> (r: PrefRecord)
        ensures
            r == default_record(),
    {
        PrefRecord { is_tui: false, score: 0, usage: 0, last_used: 0 }
    }

    /// The total score and dormancy of this record at time `now`.
    pub fn compose(&self, now: u64) -> (r: (i64, bool))
        ensures
            r.0 == total_score(self.score, self.usage),
            r.1 == dormant(self.last_used, now),
    {
        let total = self.score as i64 + self.usage as i64 * USAGE_WEIGHT;
        let is_dormant = self.last_used > 0 && now.saturating_sub(self.last_used)
            > DORMANT_AFTER_SECS;
        (total, is_dormant)
    }
}

/// What the store holds for `name`, or the default record.
pub open spec fn lookup_in(m: Map<Seq<char>, PrefRecord>, name: Seq<char>) -> PrefRecord {
    if m.contains_key(name) {
        m[name]
    } else {
        default_record()
    }
}

/// The table that a sequence of rows gives when they are stored in order, a
/// later row for a name replacing an earlier one.
pub open spec fn rows_table(rows: Seq<(String, PrefRecord)>) -> Map<Seq<char>, PrefRecord>
    decreases rows.len(),
{
    if rows.len() == 0 {
        Map::empty()
    } else {
        rows_table(rows.drop_last()).insert(rows.last().0@, rows.last().1)
    }
}

/// An in-memory copy of the preference table, keyed by entity name.
pub struct PrefStore {
    rows: Vec<(String, PrefRecord)>,
    table: Ghost<Map<Seq<char>, PrefRecord>>,
}

impl View for PrefStore {
    type V = Map<Seq<char>, PrefRecord>;

    closed spec fn view(&self) -> Map<Seq<char>, PrefRecord> {
        self.table@
    }
}

impl PrefStore {
    /// The rows hold each name once, and the table is exactly what they hold.
    pub closed spec fn wf(&self) -> bool {
        &&& forall|i: int, j: int|
            0 <= i < j < self.rows@.len() ==> #[trigger] self.rows@[i].0@
                != #[trigger] self.rows@[j].0@
        &&& forall|i: int|
            0 <= i < self.rows@.len() ==> self.table@.contains_key(#[trigger] self.rows@[i].0@)
                && self.table@[self.rows@[i].0@] == self.rows@[i].1
        &&& forall|k: Seq<char>|
            #[trigger] self.table@.contains_key(k) ==> exists|i: int|
                0 <= i < self.rows@.len() && #[trigger] self.rows@[i].0@ == k
    }

    /// An empty store.
    pub fn new() -> (s: PrefStore)
        ensures
            s.wf(),
            s@ == Map::<Seq<char>, PrefRecord>::empty(),
    {
        PrefStore { rows: Vec::new(), table: Ghost(Map::empty()) }
    }

    /// The store that holds the given rows, as one full read of the table yields them.
    pub fn from_rows(rows: Vec<(String, PrefRecord)>) -> (s: PrefStore)
        ensures
            s.wf(),
            s@ == rows_table(rows@),
    {
        let mut s = PrefStore::new();
        let mut i: usize = 0;
        while i < rows.len()
            invariant
                i <= rows@.len(),
                s.wf(),
                s@ == rows_table(rows@.take(i as int)),
            decreases rows@.len() - i,
        {
            let name = rows[i].0.clone();
            let rec = rows[i].1;
            s.put(name, rec);
            assert(rows@.take(i + 1).drop_last() =~= rows@.take(i as int));
            i = i + 1;
        }
        assert(rows@.take(i as int) =~= rows@);
        s
    }

    /// The position of the row for `name`, if there is one.
    fn find(&self, name: &String) -> (r: Option<usize>)
        requires
            self.wf(),
        ensures
            match r {
                Some(i) => i < self.rows@.len() && self.rows@[i as int].0@ == name@,
                None => !self@.contains_key(name@),
            },
    {
        let mut i: usize = 0;
        while i < self.rows.len()
            invariant
                self.wf(),
                i <= self.rows@.len(),
                forall|j: int| 0 <= j < i ==> #[trigger] self.rows@[j].0@ != name@,
            decreases self.rows@.len() - i,
        {
            if self.rows[i].0 == *name {
                return Some(i);
            }
            i = i + 1;
        }
        None
    }

    /// Stores `rec` as the record of `name`, in place of any earlier one.
    fn put(&mut self, name: String, rec: PrefRecord)
        requires
            old(self).wf(),
        ensures
            final(self).wf(),
            final(self)@ == old(self)@.insert(name@, rec),
    {
        match self.find(&name) {
            Some(i) => {
                let ghost key = name@;
                self.rows.set(i, (name, rec));
                self.table = Ghost(self.table@.insert(key, rec));
                assert forall|k: Seq<char>| #[trigger] self.table@.contains_key(k) implies exists|
                    j: int,
                | 0 <= j < self.rows@.len() && #[trigger] self.rows@[j].0@ == k by {
                    if k != key {
                        let j = choose|j: int|
                            0 <= j < old(self).rows@.len() && #[trigger] old(self).rows@[j].0@
                                == k;
                        assert(self.rows@[j].0@ == k);
                    } else {
                        assert(self.rows@[i as int].0@ == k);
                    }
                }
            },
            None => {
                let ghost key = name@;
                self.rows.push((name, rec));
                self.table = Ghost(self.table@.insert(key, rec));
                assert forall|k: Seq<char>| #[trigger] self.table@.contains_key(k) implies exists|
                    j: int,
                | 0 <= j < self.rows@.len() && #[trigger] self.rows@[j].0@ == k by {
                    if k != key {
                        let j = choose|j: int|
                            0 <= j < old(self).rows@.len() && #[trigger] old(self).rows@[j].0@
                                == k;
                        assert(self.rows@[j].0@ == k);
                    } else {
                        assert(self.rows@[self.rows@.len() - 1].0@ == k);
                    }
                }
            },
        }
    }

    /// The record of `name`; the default record when the store holds none.
    pub fn lookup(&self, name: &str) -> (r: PrefRecord)
        requires
            self.wf(),
        ensures
            r == lookup_in(self@, name@),
    {
        let key = String::from_str(name);
        match self.find(&key) {
            Some(i) => self.rows[i].1,
            None => PrefRecord::defaults(),
        }
    }

    /// Whether the store holds a record for `name`.
    pub fn has_entry(&self, name: &str) -> (r: bool)
        requires
            self.wf(),
        ensures
            r == self@.contains_key(name@),
    {
        let key = String::from_str(name);
        self.find(&key).is_some()
    }

    /// Whether `name` is marked to run inside a terminal.
    pub fn is_tui(&self, name: &str) -> (r: bool)
        requires
            self.wf(),
        ensures
            r == lookup_in(self@, name@).is_tui,
    {
        self.lookup(name).is_tui
    }

    /// Records a launch of `name` at time `now`: a new record has one use, an
    /// existing one gains a use; either way the last use becomes `now`.
    pub fn record_launch(&mut self, name: &str, now: u64)
        requires
            old(self).wf(),
        ensures
            final(self).wf(),
            final(self)@ == old(self)@.insert(name@, launched(lookup_in(old(self)@, name@), now)),
    {
        let rec = self.lookup(name);
        let usage = if rec.usage < i32::MAX {
            rec.usage + 1
        } else {
            rec.usage
        };
        let next = PrefRecord { usage, last_used: now, ..rec };
        self.put(String::from_str(name), next);
    }

    /// Sets the terminal flag of `name`, creating its record when absent.
    pub fn set_tui(&mut self, name: &str, is_tui: bool)
        requires
            old(self).wf(),
        ensures
            final(self).wf(),
            final(self)@ == old(self)@.insert(
                name@,
                PrefRecord { is_tui, ..lookup_in(old(self)@, name@) },
            ),
    {
        let rec = self.lookup(name);
        self.put(String::from_str(name), PrefRecord { is_tui, ..rec });
    }

    /// Sets the base score of `name`, creating its record when absent.
    pub fn set_base_score(&mut self, name: &str, score: i32)
        requires
            old(self).wf(),
        ensures
            final(self).wf(),
            final(self)@ == old(self)@.insert(
                name@,
                PrefRecord { score, ..lookup_in(old(self)@, name@) },
            ),
    {
        let rec = self.lookup(name);
        self.put(String::from_str(name), PrefRecord { score, ..rec });
    }
}

} // verus!
