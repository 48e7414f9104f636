//! Launch-count history, used to boost frequently used items and to fill the
//! empty-query view, and its history.toml text. Reading and writing the file
//! is left to the caller.
use vstd::prelude::*;
use crate::text::str_eq;

verus! {

/// Launch counts by item title.
pub struct History {
    entries: Vec<(String, u32)>,
}

/// The map built by recording each entry in turn (a later entry for the same
/// title replaces an earlier one).
pub open spec fn entries_map(entries: Seq<(String, u32)>) -> Map<Seq<char>, u32>
    decreases entries.len(),
{
    if entries.len() == 0 {
        Map::empty()
    } else {
        entries_map(entries.drop_last()).insert(entries.last().0@, entries.last().1)
    }
}

/// Largest count that still earns a bigger bonus.
pub const BONUS_COUNT_CAP: u32 = 20;

/// Bonus points per launch.
pub const BONUS_PER_LAUNCH: u32 = 15;

/// The score bonus for an item launched `count` times.
pub open spec fn bonus_for(count: u32) -> int {
    (if count < BONUS_COUNT_CAP { count } else { BONUS_COUNT_CAP }) * BONUS_PER_LAUNCH
}

/// The launch counts that history.toml text `text` holds, as the toml crate
/// reads it into a map from titles to `u32` counts; `None` when it cannot
/// (not TOML, or an entry that is no count).
pub uninterp spec fn toml_counts(text: Seq<char>) -> Option<Map<Seq<char>, u32>>;

/// `toml::from_str::<HashMap<String, u32>>(text)`, its entries listed (in no
/// particular order); `None` when the toml crate rejects the text.
#[verifier::external_body]
fn parse_counts(text: &str) -> (r: Option<Vec<(String, u32)>>)
    ensures
        match r {
            Some(v) => toml_counts(text@) == Some(entries_map(v@)),
            None => toml_counts(text@) is None,
        },
{
    toml::from_str::<std::collections::HashMap<String, u32>>(text).ok().map(|m| m.into_iter().collect())
}

/// `toml::to_string` of the map that `entries` make (a later entry for the
/// same title replacing an earlier one); reading the text back gives that
/// map. The toml crate fails only on keys that are not strings and on
/// missing or unit values, none of which such a map has.
#[verifier::external_body]
fn counts_text(entries: &[(String, u32)]) -> (r: String)
    ensures
        toml_counts(r@) == Some(entries_map(entries@)),
{
    let map: std::collections::HashMap<&str, u32> = entries.iter().map(|e| (e.0.as_str(), e.1)).collect();
    toml::to_string(&map).unwrap_or_default()
}

impl History {
    /// Launch counts by title.
    pub closed spec fn counts(&self) -> Map<Seq<char>, u32> {
        entries_map(self.entries@)
    }

    /// The count of `key`, 0 when it was never launched.
    pub open spec fn count_of(&self, key: Seq<char>) -> u32 {
        if self.counts().contains_key(key) {
            self.counts()[key]
        } else {
            0
        }
    }

    /// No title occurs twice among the entries.
    pub closed spec fn wf(&self) -> bool {
        forall|i: int, j: int|
            0 <= i < j < self.entries@.len() ==> (#[trigger] self.entries@[i]).0@
                != (#[trigger] self.entries@[j]).0@
    }

    proof fn lemma_lookup(&self, i: int)
        requires
            self.wf(),
            0 <= i < self.entries@.len(),
        ensures
            self.counts().contains_key(self.entries@[i].0@),
            self.counts()[self.entries@[i].0@] == self.entries@[i].1,
        decreases self.entries@.len(),
    {
        lemma_map_of_distinct(self.entries@, i);
    }

    proof fn lemma_absent(&self, key: Seq<char>)
        requires
            forall|i: int| 0 <= i < self.entries@.len() ==> (#[trigger] self.entries@[i]).0@ != key,
        ensures
            !self.counts().contains_key(key),
    {
        lemma_map_absent(self.entries@, key);
    }

    /// An empty history.
    pub fn new() -> (r: Self)
        ensures
            r.wf(),
            r.counts() == Map::<Seq<char>, u32>::empty(),
    {
        History { entries: Vec::new() }
    }

    /// A history holding the given (title, count) pairs, as read from
    /// history.toml; a later pair for the same title replaces an earlier one.
    pub fn from_entries(entries: Vec<(String, u32)>) -> (r: Self)
        ensures
            r.wf(),
            r.counts() == entries_map(entries@),
    {
        let mut h = History::new();
        let mut i: usize = 0;
        while i < entries.len()
            invariant
                i <= entries@.len(),
                h.wf(),
                h.counts() == entries_map(entries@.subrange(0, i as int)),
            decreases entries@.len() - i,
        {
            let (k, v) = (entries[i].0.clone(), entries[i].1);
            h.set(k, v);
            proof {
                let s = entries@.subrange(0, i + 1);
                assert(s.drop_last() =~= entries@.subrange(0, i as int));
            }
            i = i + 1;
        }
        proof {
            assert(entries@.subrange(0, entries@.len() as int) =~= entries@);
        }
        h
    }

    /// The (title, count) pairs, for writing history.toml: one pair per
    /// title, holding its count.
    pub fn entries(&self) -> (r: Vec<(String, u32)>)
        requires
            self.wf(),
        ensures
            entries_map(r@) == self.counts(),
            forall|i: int, j: int| 0 <= i < j < r@.len() ==> (#[trigger] r@[i]).0@ != (#[trigger] r@[j]).0@,
    {
        let mut out: Vec<(String, u32)> = Vec::new();
        let mut i: usize = 0;
        while i < self.entries.len()
            invariant
                i <= self.entries@.len(),
                out@.len() == i,
                forall|j: int| 0 <= j < i ==> (#[trigger] out@[j]).0@ == self.entries@[j].0@ && out@[j].1 == self.entries@[j].1,
            decreases self.entries@.len() - i,
        {
            out.push((self.entries[i].0.clone(), self.entries[i].1));
            i = i + 1;
        }
        proof {
            lemma_same_keys_same_map(out@, self.entries@);
        }
        out
    }

    /// The history that history.toml text `text` holds; an empty history when
    /// there is no file (`None`) or its text cannot be read as launch counts.
    pub fn from_text(text: Option<&str>) -> (r: Self)
        ensures
            r.wf(),
            r.counts() == match text {
                Some(t) => match toml_counts(t@) {
                    Some(m) => m,
                    None => Map::<Seq<char>, u32>::empty(),
                },
                None => Map::<Seq<char>, u32>::empty(),
            },
    {
        match text {
            Some(t) => match parse_counts(t) {
                Some(v) => History::from_entries(v),
                None => History::new(),
            },
            None => History::new(),
        }
    }

    /// The history.toml text of this history: reading it back gives the same
    /// counts.
    pub fn to_text(&self) -> (r: String)
        requires
            self.wf(),
        ensures
            toml_counts(r@) == Some(self.counts()),
    {
        let entries = self.entries();
        counts_text(entries.as_slice())
    }

    fn position(&self, key: &str) -> (r: Option<usize>)
        ensures
            r matches Some(i) ==> i < self.entries@.len() && self.entries@[i as int].0@ == key@,
            r is None ==> forall|i: int| 0 <= i < self.entries@.len() ==> (#[trigger] self.entries@[i]).0@ != key@,
    {
        let mut i: usize = 0;
        while i < self.entries.len()
            invariant
                i <= self.entries@.len(),
                forall|j: int| 0 <= j < i ==> (#[trigger] self.entries@[j]).0@ != key@,
            decreases self.entries@.len() - i,
        {
            if str_eq(self.entries[i].0.as_str(), key) {
                return Some(i);
            }
            i = i + 1;
        }
        None
    }

    fn set(&mut self, key: String, value: u32)
        requires
            old(self).wf(),
        ensures
            final(self).wf(),
            final(self).counts() == old(self).counts().insert(key@, value),
    {
        match self.position(key.as_str()) {
            Some(i) => {
                let ghost before = self.entries@;
                self.entries.set(i, (key, value));
                proof {
                    lemma_replace(before, i as int, self.entries@);
                }
            },
            None => {
                let ghost before = self.entries@;
                self.entries.push((key, value));
                proof {
                    assert(self.entries@.drop_last() =~= before);
                    assert forall|a: int, b: int| 0 <= a < b < self.entries@.len() implies (#[trigger] self.entries@[a]).0@
                        != (#[trigger] self.entries@[b]).0@ by {
                        if b == before.len() {
                            assert(before[a] == self.entries@[a]);
                        } else {
                            assert(before[a] == self.entries@[a]);
                            assert(before[b] == self.entries@[b]);
                        }
                    }
                }
            },
        }
    }

    /// How many times `key` was launched (0 if never).
    pub fn count(&self, key: &str) -> (r: u32)
        requires
            self.wf(),
        ensures
            r == self.count_of(key@),
    {
        match self.position(key) {
            Some(i) => {
                proof {
                    self.lemma_lookup(i as int);
                }
                self.entries[i].1
            },
            None => {
                proof {
                    self.lemma_absent(key@);
                }
                0
            },
        }
    }

    /// Score bonus added on top of the fuzzy-match score, capped so that
    /// history never completely drowns out match quality.
    pub fn bonus(&self, key: &str) -> (r: u32)
        requires
            self.wf(),
        ensures
            r == bonus_for(self.count_of(key@)),
    {
        let c = self.count(key);
        let capped = if c < BONUS_COUNT_CAP { c } else { BONUS_COUNT_CAP };
        capped * BONUS_PER_LAUNCH
    }

    /// Records one more launch of `key`.
    pub fn bump(&mut self, key: &str)
        requires
            old(self).wf(),
            old(self).count_of(key@) < u32::MAX,
        ensures
            final(self).wf(),
            final(self).counts() == old(self).counts().insert(key@, (old(self).count_of(key@) + 1) as u32),
            final(self).count_of(key@) == old(self).count_of(key@) + 1,
            forall|other: Seq<char>| other != key@ ==> final(self).count_of(other) == old(self).count_of(other),
    {
        let c = self.count(key);
        self.set(key.to_owned(), c + 1);
    }

    /// Forgets every launch of `key`.
    pub fn remove(&mut self, key: &str)
        requires
            old(self).wf(),
        ensures
            final(self).wf(),
            final(self).counts() == old(self).counts().remove(key@),
            final(self).count_of(key@) == 0,
            forall|other: Seq<char>| other != key@ ==> final(self).count_of(other) == old(self).count_of(other),
    {
        match self.position(key) {
            Some(i) => {
                let ghost before = self.entries@;
                self.entries.remove(i);
                proof {
                    lemma_remove(before, i as int, self.entries@);
                }
            },
            None => {
                proof {
                    self.lemma_absent(key@);
                    assert(self.counts().remove(key@) =~= self.counts());
                }
            },
        }
    }
}

/// The history bonus never exceeds 20 launches' worth (300), never
/// decreases as the count grows, and stops growing at 20 launches.
pub proof fn law_bonus_capped_and_monotone(a: u32, b: u32)
    ensures
        0 <= bonus_for(a) <= 300,
        a <= b ==> bonus_for(a) <= bonus_for(b),
        a >= BONUS_COUNT_CAP ==> bonus_for(a) == 300,
        a < BONUS_COUNT_CAP ==> bonus_for(a) == a * 15,
{
}

proof fn lemma_map_absent(s: Seq<(String, u32)>, key: Seq<char>)
    requires
        forall|i: int| 0 <= i < s.len() ==> (#[trigger] s[i]).0@ != key,
    ensures
        !entries_map(s).contains_key(key),
    decreases s.len(),
{
    if s.len() > 0 {
        assert(s.last() == s[s.len() - 1]);
        lemma_map_absent(s.drop_last(), key);
    }
}

proof fn lemma_map_of_distinct(s: Seq<(String, u32)>, i: int)
    requires
        0 <= i < s.len(),
        forall|a: int, b: int| 0 <= a < b < s.len() ==> (#[trigger] s[a]).0@ != (#[trigger] s[b]).0@,
    ensures
        entries_map(s).contains_key(s[i].0@),
        entries_map(s)[s[i].0@] == s[i].1,
    decreases s.len(),
{
    if i < s.len() - 1 {
        lemma_map_of_distinct(s.drop_last(), i);
        assert(s.drop_last()[i] == s[i]);
        assert(s.last() == s[s.len() - 1]);
    }
}

proof fn lemma_same_keys_same_map(a: Seq<(String, u32)>, b: Seq<(String, u32)>)
    requires
        a.len() == b.len(),
        forall|j: int| 0 <= j < a.len() ==> (#[trigger] a[j]).0@ == b[j].0@ && a[j].1 == b[j].1,
    ensures
        entries_map(a) == entries_map(b),
    decreases a.len(),
{
    if a.len() > 0 {
        lemma_same_keys_same_map(a.drop_last(), b.drop_last());
        assert(a.last() == a[a.len() - 1]);
    }
}

proof fn lemma_replace(before: Seq<(String, u32)>, i: int, after: Seq<(String, u32)>)
    requires
        0 <= i < before.len(),
        after.len() == before.len(),
        after[i].0@ == before[i].0@,
        forall|j: int| 0 <= j < before.len() && j != i ==> after[j] == before[j],
        forall|a: int, b: int|
            0 <= a < b < before.len() ==> (#[trigger] before[a]).0@ != (#[trigger] before[b]).0@,
    ensures
        entries_map(after) == entries_map(before).insert(before[i].0@, after[i].1),
        forall|a: int, b: int|
            0 <= a < b < after.len() ==> (#[trigger] after[a]).0@ != (#[trigger] after[b]).0@,
    decreases before.len(),
{
    assert forall|a: int, b: int| 0 <= a < b < after.len() implies (#[trigger] after[a]).0@ != (#[trigger] after[b]).0@ by {
        assert(before[a].0@ != before[b].0@);
    }
    if i == before.len() - 1 {
        assert(after.drop_last() =~= before.drop_last());
        assert(after.last() == after[i]);
        assert(before.last() == before[i]);
        assert(entries_map(after) =~= entries_map(before).insert(before[i].0@, after[i].1));
    } else {
        lemma_replace(before.drop_last(), i, after.drop_last());
        assert(after.last() == before.last());
        assert(after.last() == after[after.len() - 1]);
        assert(before.last() == before[before.len() - 1]);
        assert(before.last().0@ != before[i].0@);
        assert(entries_map(after) =~= entries_map(before).insert(before[i].0@, after[i].1));
    }
}

proof fn lemma_remove(before: Seq<(String, u32)>, i: int, after: Seq<(String, u32)>)
    requires
        0 <= i < before.len(),
        after == before.remove(i),
        forall|a: int, b: int|
            0 <= a < b < before.len() ==> (#[trigger] before[a]).0@ != (#[trigger] before[b]).0@,
    ensures
        entries_map(after) == entries_map(before).remove(before[i].0@),
        forall|a: int, b: int|
            0 <= a < b < after.len() ==> (#[trigger] after[a]).0@ != (#[trigger] after[b]).0@,
    decreases before.len(),
{
    assert forall|a: int, b: int| 0 <= a < b < after.len() implies (#[trigger] after[a]).0@ != (#[trigger] after[b]).0@ by {
        if b < i {
            assert(before[a].0@ != before[b].0@);
        } else if a < i {
            assert(after[b] == before[b + 1]);
            assert(before[a].0@ != before[b + 1].0@);
        } else {
            assert(after[a] == before[a + 1]);
            assert(after[b] == before[b + 1]);
            assert(before[a + 1].0@ != before[b + 1].0@);
        }
    }
    if i == before.len() - 1 {
        assert(after =~= before.drop_last());
        assert(before.last() == before[i]);
        assert forall|j: int| 0 <= j < after.len() implies (#[trigger] after[j]).0@ != before[i].0@ by {
            assert(after[j] == before[j]);
        }
        lemma_map_absent(after, before[i].0@);
        assert(entries_map(after) =~= entries_map(before).remove(before[i].0@));
    } else {
        assert(after.drop_last() =~= before.drop_last().remove(i));
        lemma_remove(before.drop_last(), i, after.drop_last());
        assert(after.last() == before.last());
        assert(before.last() == before[before.len() - 1]);
        assert(before.last().0@ != before[i].0@);
        assert(entries_map(after) =~= entries_map(before).remove(before[i].0@));
    }
}

} // verus!
