//! Turning what Lua plugins answer into items. Running the plugins (mlua)
//! stays with the caller, which reads each result table's fields and keeps
//! the `run` callbacks that this module selects.
//!
//! Plugin API:
//! ```lua
//! kwick.register{
//!     name = "myplugin",
//!     on_query = function(query)
//!         return { { title = "...", subtitle = "...", cmd = "..." } }
//!     end,
//! }
//! ```
//! Each result may carry one of:
//!   run = function() ... end  -- arbitrary Lua callback
//!   cmd = "notepad", args = "..."  -- ShellExecute
//!   url = "https://..."            -- open in browser
use vstd::prelude::*;
use crate::paths::{extension, path_extension};
use crate::text::str_eq;
use crate::providers::{clone_opt_string, opt_view, plain_item, views, Action, ActionView, Item, ItemView};

verus! {

/// One result table returned by a plugin's `on_query`, as read by the caller
/// (`None` where the field is missing or not a string).
pub struct PluginResult {
    pub title: Option<String>,
    pub subtitle: Option<String>,
    /// `run` is a function.
    pub has_run: bool,
    pub cmd: Option<String>,
    pub args: Option<String>,
    pub url: Option<String>,
}

/// Items for `results` (of all plugins, in order), and the positions of the
/// results whose `run` callback item `Lua(k)` stands for (the `k`-th of them).
/// A result without a title, or without any action, is skipped.
pub open spec fn plugin_items_spec(results: Seq<PluginResult>) -> (Seq<ItemView>, Seq<int>)
    decreases results.len(),
{
    if results.len() == 0 {
        (Seq::empty(), Seq::empty())
    } else {
        let i = results.len() - 1;
        let prev = plugin_items_spec(results.drop_last());
        let r = results[i];
        let subtitle = match r.subtitle {
            Some(s) => s@,
            None => Seq::empty(),
        };
        match r.title {
            None => prev,
            Some(t) => if r.has_run {
                (prev.0.push(plain_item(t@, subtitle, ActionView::Lua(prev.1.len() as usize))), prev.1.push(i))
            } else if r.cmd is Some {
                (
                    prev.0.push(
                        plain_item(t@, subtitle, ActionView::Exec { cmd: r.cmd.unwrap()@, args: opt_view(r.args) }),
                    ),
                    prev.1,
                )
            } else if r.url is Some {
                (prev.0.push(plain_item(t@, subtitle, ActionView::Url(r.url.unwrap()@))), prev.1)
            } else {
                prev
            },
        }
    }
}

/// A result becomes an item: it has a title and one of a `run` callback, a
/// `cmd` or a `url`.
pub open spec fn keeps(r: PluginResult) -> bool {
    r.title is Some && (r.has_run || r.cmd is Some || r.url is Some)
}

/// How many of the first `i` results become items.
pub open spec fn kept_before(results: Seq<PluginResult>, i: int) -> nat
    decreases i,
{
    if i <= 0 {
        0
    } else {
        kept_before(results, i - 1) + if keeps(results[i - 1]) { 1nat } else { 0nat }
    }
}

/// How many of the first `i` results become items that run a callback.
pub open spec fn runs_before(results: Seq<PluginResult>, i: int) -> nat
    decreases i,
{
    if i <= 0 {
        0
    } else {
        runs_before(results, i - 1) + if results[i - 1].title is Some && results[i - 1].has_run {
            1nat
        } else {
            0nat
        }
    }
}

/// Each plugin result with a title and an action becomes one item, in the
/// order of the results, and nothing else does. The item shows the result's
/// title and subtitle (empty when missing); its action is the result's own
/// `run` callback when it has one (the callbacks numbered in order), else
/// its `cmd` with its `args`, else its `url`.
pub proof fn law_plugin_results_become_items(results: Seq<PluginResult>)
    ensures
        plugin_items_spec(results).0.len() == kept_before(results, results.len() as int),
        plugin_items_spec(results).1.len() == runs_before(results, results.len() as int),
        forall|i: int|
            0 <= i < results.len() && keeps(results[i]) ==> {
                let r = results[i];
                let it = #[trigger] plugin_items_spec(results).0[kept_before(results, i) as int];
                &&& it.title == r.title.unwrap()@
                &&& it.subtitle == match r.subtitle {
                    Some(s) => s@,
                    None => Seq::<char>::empty(),
                }
                &&& it.action == if r.has_run {
                    ActionView::Lua(runs_before(results, i) as usize)
                } else if r.cmd is Some {
                    ActionView::Exec { cmd: r.cmd.unwrap()@, args: opt_view(r.args) }
                } else {
                    ActionView::Url(r.url.unwrap()@)
                }
            },
    decreases results.len(),
{
    if results.len() > 0 {
        let n = results.len() - 1;
        let p = results.drop_last();
        law_plugin_results_become_items(p);
        lemma_counts_prefix(results, n);
        assert(p.len() == n);
        assert(results[n] == results.last());
        let prev = plugin_items_spec(p);
        assert(kept_before(p, n) == kept_before(results, n));
        assert(runs_before(p, n) == runs_before(results, n));
        assert forall|i: int|
            0 <= i < results.len() && keeps(results[i]) implies {
                let r = results[i];
                let it = #[trigger] plugin_items_spec(results).0[kept_before(results, i) as int];
                &&& it.title == r.title.unwrap()@
                &&& it.subtitle == match r.subtitle {
                    Some(s) => s@,
                    None => Seq::<char>::empty(),
                }
                &&& it.action == if r.has_run {
                    ActionView::Lua(runs_before(results, i) as usize)
                } else if r.cmd is Some {
                    ActionView::Exec { cmd: r.cmd.unwrap()@, args: opt_view(r.args) }
                } else {
                    ActionView::Url(r.url.unwrap()@)
                }
            } by {
            if i < n {
                assert(p[i] == results[i]);
                assert(kept_before(p, i) == kept_before(results, i));
                assert(runs_before(p, i) == runs_before(results, i));
                lemma_kept_below(p, i);
                assert(kept_before(p, i) < prev.0.len());
                assert(prev.0[kept_before(p, i) as int] == plugin_items_spec(p).0[kept_before(p, i) as int]);
            }
        }
    }
}

/// A result that becomes an item comes before the items of the later ones.
proof fn lemma_kept_below(results: Seq<PluginResult>, i: int)
    requires
        0 <= i < results.len(),
        keeps(results[i]),
    ensures
        kept_before(results, i) < kept_before(results, results.len() as int),
{
    lemma_kept_monotone(results, i + 1, results.len() as int);
}

proof fn lemma_kept_monotone(results: Seq<PluginResult>, a: int, b: int)
    requires
        0 <= a <= b,
    ensures
        kept_before(results, a) <= kept_before(results, b),
    decreases b - a,
{
    if a < b {
        lemma_kept_monotone(results, a, b - 1);
    }
}

/// The counts over the first `i` results do not look past them.
proof fn lemma_counts_prefix(results: Seq<PluginResult>, n: int)
    requires
        0 <= n < results.len(),
        n == results.len() - 1,
    ensures
        forall|i: int|
            0 <= i <= n ==> kept_before(results.drop_last(), i) == kept_before(results, i) && runs_before(
                results.drop_last(),
                i,
            ) == runs_before(results, i),
{
    assert forall|i: int| 0 <= i <= n implies kept_before(results.drop_last(), i) == kept_before(results, i)
        && runs_before(results.drop_last(), i) == runs_before(results, i) by {
        lemma_counts_prefix_at(results, i);
    }
}

proof fn lemma_counts_prefix_at(results: Seq<PluginResult>, i: int)
    requires
        0 <= i < results.len(),
    ensures
        kept_before(results.drop_last(), i) == kept_before(results, i),
        runs_before(results.drop_last(), i) == runs_before(results, i),
    decreases i,
{
    if i > 0 {
        lemma_counts_prefix_at(results, i - 1);
        assert(results.drop_last()[i - 1] == results[i - 1]);
    }
}

/// The plugins' items for one query, and the positions (in `results`) of the
/// results whose `run` callbacks the caller keeps, in callback-index order.
pub fn plugin_items(results: &[PluginResult]) -> (r: (Vec<Item>, Vec<usize>))
    ensures
        views(r.0@) == plugin_items_spec(results@).0,
        r.1@.map_values(|i: usize| i as int) == plugin_items_spec(results@).1,
{
    let mut items: Vec<Item> = Vec::new();
    let mut runs: Vec<usize> = Vec::new();
    let mut i: usize = 0;
    while i < results.len()
        invariant
            i <= results@.len(),
            views(items@) == plugin_items_spec(results@.take(i as int)).0,
            runs@.map_values(|k: usize| k as int) == plugin_items_spec(results@.take(i as int)).1,
        decreases results@.len() - i,
    {
        proof {
            assert(results@.take(i + 1).drop_last() =~= results@.take(i as int));
        }
        let r = &results[i];
        if let Some(title) = &r.title {
            let subtitle = match &r.subtitle {
                Some(s) => s.clone(),
                None => String::new(),
            };
            let ghost before_items = items@;
            let ghost before_runs = runs@;
            if r.has_run {
                let k = runs.len();
                runs.push(i);
                items.push(Item::new(title.clone(), subtitle, Action::Lua(k)));
                assert(runs@.map_values(|k: usize| k as int) =~= before_runs.map_values(|k: usize| k as int).push(i as int));
                assert(views(items@) =~= views(before_items).push(items@[items@.len() - 1]@));
            } else if let Some(cmd) = &r.cmd {
                items.push(Item::new(title.clone(), subtitle, Action::Exec { cmd: cmd.clone(), args: clone_opt_string(&r.args) }));
                assert(views(items@) =~= views(before_items).push(items@[items@.len() - 1]@));
            } else if let Some(url) = &r.url {
                items.push(Item::new(title.clone(), subtitle, Action::Url(url.clone())));
                assert(views(items@) =~= views(before_items).push(items@[items@.len() - 1]@));
            }
        }
        i = i + 1;
    }
    assert(results@.take(results@.len() as int) =~= results@);
    (items, runs)
}

/// A file of the plugin folder is loaded when its extension is exactly "lua".
pub fn is_plugin_file(path: &str) -> (r: bool)
    ensures
        r == (path_extension(path@) == Some("lua"@)),
{
    match extension(path) {
        Some(e) => str_eq(e.as_str(), "lua"),
        None => false,
    }
}

} // verus!
