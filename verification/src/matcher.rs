//! Fuzzy ranking of items against a query, with per-item score bonuses.
use vstd::prelude::*;
use nucleo_matcher::pattern::{CaseMatching, Normalization, Pattern};
use nucleo_matcher::{Config, Matcher, Utf32Str};
use crate::providers::Item;

verus! {

#[verifier::external_type_specification]
#[verifier::external_body]
pub struct ExMatcher(Matcher);

/// The score that nucleo-matcher gives `haystack` for the query `query`
/// (parsed with `Pattern::parse`, case-insensitive, smart normalization,
/// default matcher configuration); `None` when it does not match.
pub uninterp spec fn fuzzy_score(query: Seq<char>, haystack: Seq<char>) -> Option<u32>;

/// `Matcher::new(Config::DEFAULT)`.
#[verifier::external_body]
fn new_matcher() -> Matcher {
    Matcher::new(Config::DEFAULT)
}

/// Parses `query` with nucleo-matcher's `Pattern::parse` (ignore case, smart
/// normalization) and scores `haystack` with `Pattern::score`. The matcher only
/// holds scratch space and a configuration that the pattern overwrites, so the
/// score depends on the query and the haystack alone.
#[verifier::external_body]
fn pattern_score(matcher: &mut Matcher, query: &str, haystack: &str) -> (r: Option<u32>)
    ensures
        r == fuzzy_score(query@, haystack@),
{
    let pattern = Pattern::parse(query, CaseMatching::Ignore, Normalization::Smart);
    let mut buf = Vec::new();
    pattern.score(Utf32Str::new(haystack, &mut buf), matcher)
}

/// Fuzzy score of `item` plus its bonus, or `None` when it does not match.
pub open spec fn item_total(query: Seq<char>, item: Item, bonus: u32) -> Option<int> {
    match fuzzy_score(query, item.key@) {
        Some(s) => Some(s + bonus),
        None => None,
    }
}

/// Item `a` (total `ta`) is listed before item `b` (total `tb`): a higher total
/// first, equal totals in input order.
pub open spec fn ranks_before(ta: int, a: int, tb: int, b: int) -> bool {
    ta > tb || (ta == tb && a < b)
}

/// The total of the item at index `i`.
pub open spec fn total_at(items: Seq<Item>, query: Seq<char>, bonus: Seq<u32>, i: int) -> Option<
    int,
> {
    item_total(query, items[i], bonus[i])
}

/// `r` lists the best matching items, best first, at most `max` of them:
/// every listed index matches, the list is ordered by `ranks_before`, and a
/// matching item is left out only when the list is full and it ranks after
/// every listed one.
pub open spec fn is_ranking(
    items: Seq<Item>,
    query: Seq<char>,
    bonus: Seq<u32>,
    max: int,
    r: Seq<usize>,
) -> bool {
    &&& r.len() <= max
    &&& forall|k: int|
        0 <= k < r.len() ==> r[k] < items.len() && (#[trigger] total_at(
            items,
            query,
            bonus,
            r[k] as int,
        )) is Some
    &&& forall|k: int, l: int|
        0 <= k < l < r.len() ==> ranks_before(
            total_at(items, query, bonus, #[trigger] r[k] as int)->0,
            r[k] as int,
            total_at(items, query, bonus, #[trigger] r[l] as int)->0,
            r[l] as int,
        )
    &&& forall|i: int|
        0 <= i < items.len() && (#[trigger] total_at(items, query, bonus, i)) is Some
            && !r.contains(i as usize) ==> {
            &&& r.len() == max
            &&& forall|k: int|
                0 <= k < r.len() ==> ranks_before(
                    total_at(items, query, bonus, #[trigger] r[k] as int)->0,
                    r[k] as int,
                    total_at(items, query, bonus, i)->0,
                    i,
                )
        }
}

/// `r` lists indices of the entries of `totals` that have a total, best
/// first (by `ranks_before`), at most `max` of them; an entry with a total is
/// left out only when the list is full and it ranks after every listed one.
pub open spec fn is_top(totals: Seq<Option<u64>>, max: int, r: Seq<usize>) -> bool {
    &&& r.len() <= max
    &&& forall|k: int| 0 <= k < r.len() ==> r[k] < totals.len() && (#[trigger] totals[r[k] as int]) is Some
    &&& forall|k: int, l: int|
        0 <= k < l < r.len() ==> ranks_before(
            totals[#[trigger] r[k] as int]->0 as int,
            r[k] as int,
            totals[#[trigger] r[l] as int]->0 as int,
            r[l] as int,
        )
    &&& forall|i: int|
        0 <= i < totals.len() && (#[trigger] totals[i]) is Some && !r.contains(i as usize) ==> {
            &&& r.len() == max
            &&& forall|k: int|
                0 <= k < r.len() ==> ranks_before(
                    totals[#[trigger] r[k] as int]->0 as int,
                    r[k] as int,
                    totals[i]->0 as int,
                    i,
                )
        }
}

/// The indices of the best entries of `totals` (highest total first, equal
/// totals in index order), at most `max` of them; entries without a total
/// are never listed.
pub fn select_top(totals: &[Option<u64>], max: usize) -> (r: Vec<usize>)
    ensures
        is_top(totals@, max as int, r@),
{
    let n = totals.len();
    let mut chosen: Vec<usize> = Vec::new();
    let mut taken: Vec<bool> = Vec::new();
    let mut j: usize = 0;
    while j < n
        invariant
            n == totals@.len(),
            j <= n,
            taken@.len() == j,
            forall|k: int| 0 <= k < j ==> !(#[trigger] taken@[k]),
        decreases n - j,
    {
        taken.push(false);
        j = j + 1;
    }
    while chosen.len() < max
        invariant
            n == totals@.len(),
            taken@.len() == n,
            chosen@.len() <= max,
            forall|j: int| 0 <= j < n ==> (#[trigger] taken@[j] <==> chosen@.contains(j as usize)),
            forall|k: int| 0 <= k < chosen@.len() ==> chosen@[k] < n && (#[trigger] totals@[chosen@[k] as int]) is Some,
            forall|k: int, l: int|
                0 <= k < l < chosen@.len() ==> ranks_before(
                    totals@[#[trigger] chosen@[k] as int]->0 as int,
                    chosen@[k] as int,
                    totals@[#[trigger] chosen@[l] as int]->0 as int,
                    chosen@[l] as int,
                ),
            forall|i: int, k: int|
                0 <= i < n && (#[trigger] totals@[i]) is Some && !taken@[i] && 0 <= k < chosen@.len() ==> ranks_before(
                    totals@[#[trigger] chosen@[k] as int]->0 as int,
                    chosen@[k] as int,
                    totals@[i]->0 as int,
                    i,
                ),
        ensures
            chosen@.len() <= max,
            forall|j: int| 0 <= j < n ==> (#[trigger] taken@[j] <==> chosen@.contains(j as usize)),
            forall|k: int| 0 <= k < chosen@.len() ==> chosen@[k] < n && (#[trigger] totals@[chosen@[k] as int]) is Some,
            forall|k: int, l: int|
                0 <= k < l < chosen@.len() ==> ranks_before(
                    totals@[#[trigger] chosen@[k] as int]->0 as int,
                    chosen@[k] as int,
                    totals@[#[trigger] chosen@[l] as int]->0 as int,
                    chosen@[l] as int,
                ),
            forall|i: int, k: int|
                0 <= i < n && (#[trigger] totals@[i]) is Some && !taken@[i] && 0 <= k < chosen@.len() ==> ranks_before(
                    totals@[#[trigger] chosen@[k] as int]->0 as int,
                    chosen@[k] as int,
                    totals@[i]->0 as int,
                    i,
                ),
            forall|i: int| 0 <= i < n && (#[trigger] totals@[i]) is Some && !taken@[i] ==> chosen@.len() == max,
        decreases max - chosen@.len(),
    {
        let mut best: Option<usize> = None;
        let mut best_total: u64 = 0;
        let mut i: usize = 0;
        while i < n
            invariant
                n == totals@.len(),
                taken@.len() == n,
                i <= n,
                best matches Some(b) ==> b < i && !taken@[b as int] && totals@[b as int] == Some(best_total),
                forall|j: int|
                    0 <= j < i && !taken@[j] && (#[trigger] totals@[j]) is Some ==> (best matches Some(b) && (
                    best_total > totals@[j]->0 || (best_total == totals@[j]->0 && b <= j))),
            decreases n - i,
        {
            if !taken[i] {
                match totals[i] {
                    Some(t) => {
                        let better = match best {
                            None => true,
                            Some(_) => t > best_total,
                        };
                        if better {
                            best = Some(i);
                            best_total = t;
                        }
                    },
                    None => {},
                }
            }
            i = i + 1;
        }
        match best {
            None => {
                break;
            },
            Some(b) => {
                proof {
                    assert(!chosen@.contains(b));
                }
                let ghost old_chosen = chosen@;
                let ghost old_taken = taken@;
                chosen.push(b);
                taken.set(b, true);
                proof {
                    assert forall|i: int, k: int|
                        0 <= i < n && (#[trigger] totals@[i]) is Some && !taken@[i] && 0 <= k < chosen@.len() implies ranks_before(
                        totals@[#[trigger] chosen@[k] as int]->0 as int,
                        chosen@[k] as int,
                        totals@[i]->0 as int,
                        i,
                    ) by {
                        assert(i != b as int);
                        assert(!old_taken[i]);
                        if k < old_chosen.len() {
                            assert(chosen@[k] == old_chosen[k]);
                        } else {
                            assert(chosen@[k] == b);
                        }
                    }
                    assert forall|j: int| 0 <= j < n implies (#[trigger] taken@[j] <==> chosen@.contains(j as usize)) by {
                        if j == b as int {
                            assert(chosen@[old_chosen.len() as int] == b);
                        } else {
                            if chosen@.contains(j as usize) {
                                let k = choose|k: int| 0 <= k < chosen@.len() && chosen@[k] == j as usize;
                                assert(k < old_chosen.len());
                                assert(old_chosen[k] == j as usize);
                            }
                            if old_chosen.contains(j as usize) {
                                let k = choose|k: int| 0 <= k < old_chosen.len() && old_chosen[k] == j as usize;
                                assert(chosen@[k] == j as usize);
                            }
                        }
                    }
                }
            },
        }
    }
    proof {
        assert forall|i: int|
            0 <= i < n && (#[trigger] totals@[i]) is Some && !chosen@.contains(i as usize) implies {
            &&& chosen@.len() == max
            &&& forall|k: int|
                0 <= k < chosen@.len() ==> ranks_before(
                    totals@[#[trigger] chosen@[k] as int]->0 as int,
                    chosen@[k] as int,
                    totals@[i]->0 as int,
                    i,
                )
        } by {
            assert(!taken@[i]);
        }
    }
    chosen
}

pub struct Ranker {
    matcher: Matcher,
}

impl Ranker {
    pub fn new() -> Self {
        Ranker { matcher: new_matcher() }
    }

    /// Returns indices into `items`, best match first, at most `max`.
    /// `bonus[i]` adds an extra score to `items[i]` (e.g. launch-count history).
    pub fn rank(&mut self, items: &[Item], query: &str, max: usize, bonus: &[u32]) -> (r: Vec<usize>)
        requires
            bonus@.len() == items@.len(),
        ensures
            is_ranking(items@, query@, bonus@, max as int, r@),
    {
        let n = items.len();
        let mut totals: Vec<Option<u64>> = Vec::new();
        let mut i: usize = 0;
        while i < n
            invariant
                n == items@.len(),
                bonus@.len() == n,
                i <= n,
                totals@.len() == i,
                forall|j: int|
                    0 <= j < i ==> ((#[trigger] totals@[j]) is Some) == (total_at(items@, query@, bonus@, j) is Some)
                        && (totals@[j] is Some ==> totals@[j]->0 as int == total_at(items@, query@, bonus@, j)->0),
            decreases n - i,
        {
            let s = pattern_score(&mut self.matcher, query, items[i].key.as_str());
            let t = match s {
                Some(v) => Some(v as u64 + bonus[i] as u64),
                None => None,
            };
            totals.push(t);
            i = i + 1;
        }
        let r = select_top(totals.as_slice(), max);
        proof {
            assert forall|k: int| 0 <= k < r@.len() implies r@[k] < items@.len() && (#[trigger] total_at(
                items@,
                query@,
                bonus@,
                r@[k] as int,
            )) is Some by {
                assert(totals@[r@[k] as int] is Some);
            }
            assert forall|k: int, l: int|
                0 <= k < l < r@.len() implies ranks_before(
                total_at(items@, query@, bonus@, #[trigger] r@[k] as int)->0,
                r@[k] as int,
                total_at(items@, query@, bonus@, #[trigger] r@[l] as int)->0,
                r@[l] as int,
            ) by {
                assert(totals@[r@[k] as int] is Some);
                assert(totals@[r@[l] as int] is Some);
            }
            assert forall|i: int|
                0 <= i < items@.len() && (#[trigger] total_at(items@, query@, bonus@, i)) is Some
                    && !r@.contains(i as usize) implies {
                &&& r@.len() == max
                &&& forall|k: int|
                    0 <= k < r@.len() ==> ranks_before(
                        total_at(items@, query@, bonus@, #[trigger] r@[k] as int)->0,
                        r@[k] as int,
                        total_at(items@, query@, bonus@, i)->0,
                        i,
                    )
            } by {
                assert(totals@[i] is Some);
                assert forall|k: int| 0 <= k < r@.len() implies ranks_before(
                    total_at(items@, query@, bonus@, #[trigger] r@[k] as int)->0,
                    r@[k] as int,
                    total_at(items@, query@, bonus@, i)->0,
                    i,
                ) by {
                    assert(totals@[r@[k] as int] is Some);
                }
            }
        }
        r
    }
}

} // verus!
