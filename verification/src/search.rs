//! What the launcher lists for a query: the most used items for an empty
//! query; otherwise web searches, plugin results, then fuzzy matches boosted
//! by launch history.
use vstd::prelude::*;
use crate::config::WebSearch;
use crate::history::{bonus_for, History};
use crate::matcher::{is_ranking, is_top, select_top, Ranker};
use crate::providers::{views, plain_item, Action, ActionView, Item, ItemView};
use crate::text::{concat, push_char, has_prefix, replace_all, replaced, strip_prefix, trim, trimmed};

verus! {

/// A byte that URL encoding leaves as it is: an ASCII letter or digit, or one
/// of `-`, `.`, `_`, `~`.
pub open spec fn unreserved(b: u8) -> bool {
    (0x30 <= b <= 0x39) || (0x41 <= b <= 0x5A) || (0x61 <= b <= 0x7A) || b == 0x2D || b == 0x2E || b == 0x5F
        || b == 0x7E
}

/// The upper-case hexadecimal digit for `d` (below 16).
pub open spec fn hex_digit(d: int) -> char {
    if d < 10 {
        (0x30 + d) as char
    } else {
        (0x41 - 10 + d) as char
    }
}

/// `bytes` percent-encoded: every byte but an unreserved one becomes `%` and
/// two upper-case hexadecimal digits.
pub open spec fn percent_encoded(bytes: Seq<u8>) -> Seq<char>
    decreases bytes.len(),
{
    if bytes.len() == 0 {
        Seq::empty()
    } else {
        let b = bytes.last();
        percent_encoded(bytes.drop_last()) + if unreserved(b) {
            seq![b as char]
        } else {
            seq!['%', hex_digit(b as int / 16), hex_digit(b as int % 16)]
        }
    }
}

/// urlencoding's `encode` of `text`: its UTF-8 bytes percent-encoded.
pub open spec fn url_encoded(text: Seq<char>) -> Seq<char> {
    percent_encoded(vstd::utf8::encode_utf8(text))
}

/// The upper-case hexadecimal digit for `d`.
fn hex_char(d: u8) -> (r: char)
    requires
        d < 16,
    ensures
        r == hex_digit(d as int),
{
    if d < 10 {
        (0x30u8 + d) as char
    } else {
        (0x41u8 - 10 + d) as char
    }
}

/// URL encoding of `text` (what urlencoding's `encode` does): its UTF-8 bytes
/// percent-encoded.
fn url_encode(text: &str) -> (r: String)
    ensures
        r@ == url_encoded(text@),
{
    let bytes = text.as_bytes();
    let mut out = String::new();
    let mut i: usize = 0;
    while i < bytes.len()
        invariant
            i <= bytes@.len(),
            bytes@ == vstd::utf8::encode_utf8(text@),
            out@ == percent_encoded(bytes@.take(i as int)),
        decreases bytes@.len() - i,
    {
        let b = bytes[i];
        let keep = (0x30 <= b && b <= 0x39) || (0x41 <= b && b <= 0x5A) || (0x61 <= b && b <= 0x7A) || b == 0x2D
            || b == 0x2E || b == 0x5F || b == 0x7E;
        if keep {
            push_char(&mut out, b as char);
        } else {
            push_char(&mut out, '%');
            push_char(&mut out, hex_char(b / 16));
            push_char(&mut out, hex_char(b % 16));
        }
        proof {
            let t = bytes@.take(i + 1);
            assert(t.drop_last() =~= bytes@.take(i as int));
            assert(t.last() == b);
        }
        i = i + 1;
    }
    assert(bytes@.take(bytes@.len() as int) =~= bytes@);
    out
}

/// The search terms after "keyword " in the query `q`, if `q` starts with the
/// keyword, a space, and some non-blank text.
pub open spec fn web_rest(q: Seq<char>, keyword: Seq<char>) -> Option<Seq<char>> {
    if has_prefix(q, keyword) && q.len() > keyword.len() && q[keyword.len() as int] == ' ' && trimmed(
        q.skip(keyword.len() + 1int),
    ).len() > 0 {
        Some(trimmed(q.skip(keyword.len() + 1int)))
    } else {
        None
    }
}

/// The item that opens web search `ws` for the terms `rest`.
pub open spec fn web_item(ws: WebSearch, rest: Seq<char>) -> ItemView {
    let url = replaced(ws.url@, "{query}"@, url_encoded(rest));
    plain_item(ws.name@ + ": "@ + rest, url, ActionView::Url(url))
}

/// The web-search items for the query `q`, in the order of the searches.
pub open spec fn web_items(q: Seq<char>, searches: Seq<WebSearch>) -> Seq<ItemView>
    decreases searches.len(),
{
    if searches.len() == 0 {
        Seq::empty()
    } else {
        web_items(q, searches.drop_last()) + match web_rest(q, searches.last().keyword@) {
            Some(rest) => seq![web_item(searches.last(), rest)],
            None => Seq::empty(),
        }
    }
}

/// The launch counts of items, as ranking totals (`None` for never launched).
pub open spec fn count_totals(history: History, items: Seq<Item>) -> Seq<Option<u64>> {
    items.map_values(
        |it: Item|
            if history.count_of(it.title@) > 0 {
                Some(history.count_of(it.title@) as u64)
            } else {
                None
            },
    )
}

/// The ranking bonus of each item: its history bonus plus its own boost
/// (saturating at `u32::MAX`).
pub open spec fn bonuses(history: History, items: Seq<Item>) -> Seq<u32> {
    items.map_values(
        |it: Item|
            if bonus_for(history.count_of(it.title@)) + it.rank_boost > u32::MAX {
                u32::MAX
            } else {
                (bonus_for(history.count_of(it.title@)) + it.rank_boost) as u32
            },
    )
}

/// The items at the given indices.
pub open spec fn picked(items: Seq<Item>, idx: Seq<usize>) -> Seq<ItemView> {
    idx.map_values(|i: usize| items[i as int]@)
}

/// Fills the result list for `raw_query`. `lua_items` are the plugins' answers
/// to the trimmed query (unused when it is empty).
pub fn search(
    raw_query: &str,
    indexed: &[Item],
    history: &History,
    max_results: usize,
    web_searches: &[WebSearch],
    lua_items: Vec<Item>,
    ranker: &mut Ranker,
) -> (r: Vec<Item>)
    requires
        history.wf(),
    ensures
        trimmed(raw_query@).len() == 0 ==> exists|idx: Seq<usize>|
            is_top(count_totals(*history, indexed@), max_results as int, idx) && views(r@) == #[trigger] picked(
                indexed@,
                idx,
            ),
        trimmed(raw_query@).len() > 0 ==> {
            let q = trimmed(raw_query@);
            let head = web_items(q, web_searches@) + views(lua_items@);
            let taken = if head.len() < 2 { head.len() } else { 2 };
            let remaining = if max_results > taken { max_results - taken } else { 0 };
            exists|idx: Seq<usize>|
                is_ranking(indexed@, q, bonuses(*history, indexed@), remaining, idx) && views(r@) == head
                    + #[trigger] picked(indexed@, idx)
        },
{
    let q = trim(raw_query);
    let mut results: Vec<Item> = Vec::new();
    if q.as_str().is_empty() {
        // Empty query: show most-used items.
        let mut totals: Vec<Option<u64>> = Vec::new();
        let mut i: usize = 0;
        while i < indexed.len()
            invariant
                history.wf(),
                i <= indexed@.len(),
                totals@ == count_totals(*history, indexed@).subrange(0, i as int),
            decreases indexed@.len() - i,
        {
            let c = history.count(indexed[i].title.as_str());
            totals.push(if c > 0 { Some(c as u64) } else { None });
            assert(totals@ =~= count_totals(*history, indexed@).subrange(0, i + 1));
            i = i + 1;
        }
        assert(totals@ =~= count_totals(*history, indexed@));
        let idx = select_top(totals.as_slice(), max_results);
        let mut k: usize = 0;
        while k < idx.len()
            invariant
                k <= idx@.len(),
                forall|j: int| 0 <= j < idx@.len() ==> idx@[j] < indexed@.len(),
                views(results@) == picked(indexed@, idx@.subrange(0, k as int)),
            decreases idx@.len() - k,
        {
            let ghost before = results@;
            let it = indexed[idx[k]].clone();
            results.push(it);
            assert(idx@.subrange(0, k + 1) =~= idx@.subrange(0, k as int).push(idx@[k as int]));
            assert(views(results@) =~= views(before).push(indexed@[idx@[k as int] as int]@));
            assert(views(results@) =~= picked(indexed@, idx@.subrange(0, k + 1)));
            k = k + 1;
        }
        assert(idx@.subrange(0, idx@.len() as int) =~= idx@);
        return results;
    }
    // Web searches: "keyword rest-of-query"
    let mut w: usize = 0;
    while w < web_searches.len()
        invariant
            w <= web_searches@.len(),
            views(results@) == web_items(q@, web_searches@.subrange(0, w as int)),
        decreases web_searches@.len() - w,
    {
        let ws = &web_searches[w];
        proof {
            let s = web_searches@.subrange(0, w + 1);
            assert(s.drop_last() =~= web_searches@.subrange(0, w as int));
            assert(s.last() == web_searches@[w as int]);
        }
        if let Some(rest) = strip_prefix(q.as_str(), ws.keyword.as_str()) {
            if let Some(rest2) = strip_prefix(rest.as_str(), " ") {
                let rest3 = trim(rest2.as_str());
                if !rest3.as_str().is_empty() {
                    let encoded = url_encode(rest3.as_str());
                    proof {
                        reveal_strlit("{query}");
                    }
                    let url = replace_all(ws.url.as_str(), "{query}", encoded.as_str());
                    let title = concat(concat(ws.name.as_str(), ": ").as_str(), rest3.as_str());
                    let ghost before = results@;
                    results.push(Item::new(title, url.clone(), Action::Url(url)));
                    proof {
                        reveal_strlit(" ");
                        reveal_strlit("{query}");
                        assert(q@.skip(ws.keyword@.len() as int) =~= rest@);
                        assert(rest@[0] == ' ');
                        assert(rest2@ =~= q@.skip(ws.keyword@.len() + 1int));
                        assert(views(results@) =~= views(before).push(web_item(*ws, rest3@)));
                    }
                } else {
                    proof {
                        reveal_strlit(" ");
                        assert(rest2@ =~= q@.skip(ws.keyword@.len() + 1int));
                    }
                }
            } else {
                proof {
                    reveal_strlit(" ");
                    assert(q@.skip(ws.keyword@.len() as int) =~= rest@);
                    if q@.len() > ws.keyword@.len() && q@[ws.keyword@.len() as int] == ' ' {
                        assert(rest@.subrange(0, 1) =~= " "@);
                    }
                }
            }
        }
        w = w + 1;
    }
    assert(web_searches@.subrange(0, web_searches@.len() as int) =~= web_searches@);
    let ghost web = results@;
    let ghost lua = lua_items@;
    // Lua plugins decide their own relevance; they go on top.
    let mut lua_items = lua_items;
    results.append(&mut lua_items);
    assert(views(results@) =~= views(web) + views(lua));
    // Fuzzy-matched indexed items, boosted by launch history.
    let taken = if results.len() < 2 { results.len() } else { 2 };
    let remaining = max_results.saturating_sub(taken);
    let mut bonus: Vec<u32> = Vec::new();
    let mut i: usize = 0;
    while i < indexed.len()
        invariant
            history.wf(),
            i <= indexed@.len(),
            bonus@ == bonuses(*history, indexed@).subrange(0, i as int),
        decreases indexed@.len() - i,
    {
        let b = history.bonus(indexed[i].title.as_str());
        bonus.push(b.saturating_add(indexed[i].rank_boost));
        assert(bonus@ =~= bonuses(*history, indexed@).subrange(0, i + 1));
        i = i + 1;
    }
    assert(bonus@ =~= bonuses(*history, indexed@));
    let idx = ranker.rank(indexed, q.as_str(), remaining, bonus.as_slice());
    let ghost head = results@;
    let mut k: usize = 0;
    while k < idx.len()
        invariant
            k <= idx@.len(),
            forall|j: int| 0 <= j < idx@.len() ==> idx@[j] < indexed@.len(),
            views(results@) == views(head) + picked(indexed@, idx@.subrange(0, k as int)),
        decreases idx@.len() - k,
    {
        let ghost before = results@;
        let it = indexed[idx[k]].clone();
        results.push(it);
        assert(idx@.subrange(0, k + 1) =~= idx@.subrange(0, k as int).push(idx@[k as int]));
        assert(views(results@) =~= views(before).push(indexed@[idx@[k as int] as int]@));
        assert(views(results@) =~= views(head) + picked(indexed@, idx@.subrange(0, k + 1)));
        k = k + 1;
    }
    assert(idx@.subrange(0, idx@.len() as int) =~= idx@);
    results
}

} // verus!
