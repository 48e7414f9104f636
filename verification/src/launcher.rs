//! The launcher window's decisions: the index it searches, how the selection
//! moves, what executing an item does, and when the window hides itself.
//! Drawing and the native calls stay with the caller.
use vstd::prelude::*;
use crate::config::{Config, ScanFolder};
use crate::providers::{views, Action, Item, ItemView};
use crate::text::str_eq;

verus! {

/// Indexed items: scanned items (start menu apps, PATH executables, ...,
/// builtins) followed by the custom commands of the config file.
pub struct SearchIndex {
    items: Vec<Item>,
    /// How many of `items` (from the end) come from the config file.
    config_item_count: usize,
}

impl SearchIndex {
    pub closed spec fn all(&self) -> Seq<Item> {
        self.items@
    }

    pub closed spec fn config_count(&self) -> nat {
        self.config_item_count as nat
    }

    /// The config items are a suffix of the index.
    pub closed spec fn wf(&self) -> bool {
        self.config_item_count <= self.items@.len()
    }

    /// The items that came from scanning.
    pub open spec fn scanned(&self) -> Seq<Item> {
        self.all().take(self.all().len() - self.config_count())
    }

    /// An index of `scanned` followed by `config_items`.
    pub fn new(scanned: Vec<Item>, config_items: Vec<Item>) -> (r: Self)
        ensures
            r.wf(),
            r.all() == scanned@ + config_items@,
            r.config_count() == config_items@.len(),
    {
        let count = config_items.len();
        let mut items = scanned;
        let mut c = config_items;
        items.append(&mut c);
        SearchIndex { items, config_item_count: count }
    }

    /// All indexed items.
    pub fn items(&self) -> (r: &Vec<Item>)
        ensures
            r@ == self.all(),
    {
        &self.items
    }

    /// Cheap reload: the scanned items stay, the config items are replaced.
    pub fn replace_config_items(&mut self, config_items: Vec<Item>)
        requires
            old(self).wf(),
        ensures
            final(self).wf(),
            final(self).all() == old(self).scanned() + config_items@,
            final(self).scanned() == old(self).scanned(),
            final(self).config_count() == config_items@.len(),
    {
        let keep = self.items.len() - self.config_item_count;
        self.items.truncate(keep);
        let count = config_items.len();
        let mut c = config_items;
        self.items.append(&mut c);
        self.config_item_count = count;
        assert(self.items@.take(self.items@.len() - count) =~= old(self).scanned());
    }
}

/// The scan folders as compared between two loads of the configuration.
pub open spec fn folder_view(f: ScanFolder) -> (Seq<char>, usize, Option<Seq<Seq<char>>>) {
    (
        f.path@,
        f.depth,
        match f.extensions {
            Some(e) => Some(e@.map_values(|s: String| s@)),
            None => None,
        },
    )
}

fn same_strings(a: &Vec<String>, b: &Vec<String>) -> (r: bool)
    ensures
        r == (a@.map_values(|s: String| s@) == b@.map_values(|s: String| s@)),
{
    if a.len() != b.len() {
        assert(a@.map_values(|s: String| s@).len() != b@.map_values(|s: String| s@).len());
        return false;
    }
    let mut i: usize = 0;
    while i < a.len()
        invariant
            a@.len() == b@.len(),
            i <= a@.len(),
            forall|j: int| 0 <= j < i ==> (#[trigger] a@[j])@ == b@[j]@,
        decreases a@.len() - i,
    {
        if !str_eq(a[i].as_str(), b[i].as_str()) {
            assert(a@.map_values(|s: String| s@)[i as int] != b@.map_values(|s: String| s@)[i as int]);
            return false;
        }
        i = i + 1;
    }
    assert(a@.map_values(|s: String| s@) =~= b@.map_values(|s: String| s@));
    true
}

fn same_folder(a: &ScanFolder, b: &ScanFolder) -> (r: bool)
    ensures
        r == (folder_view(*a) == folder_view(*b)),
{
    if !str_eq(a.path.as_str(), b.path.as_str()) || a.depth != b.depth {
        return false;
    }
    match (&a.extensions, &b.extensions) {
        (Some(x), Some(y)) => same_strings(x, y),
        (None, None) => true,
        _ => false,
    }
}

/// Whether a reloaded configuration changes what the heavy scan covers
/// (Start Menu, PATH, scan folders), so the index must be rescanned.
pub fn needs_rescan(before: &Config, after: &Config) -> (r: bool)
    ensures
        r == !(before.scan_start_menu == after.scan_start_menu && before.scan_path == after.scan_path
            && before.scan_folders@.map_values(|f: ScanFolder| folder_view(f)) == after.scan_folders@.map_values(
            |f: ScanFolder| folder_view(f),
        )),
{
    let ghost fa = before.scan_folders@.map_values(|f: ScanFolder| folder_view(f));
    let ghost fb = after.scan_folders@.map_values(|f: ScanFolder| folder_view(f));
    if before.scan_start_menu != after.scan_start_menu || before.scan_path != after.scan_path {
        return true;
    }
    if before.scan_folders.len() != after.scan_folders.len() {
        assert(fa.len() != fb.len());
        return true;
    }
    let mut i: usize = 0;
    while i < before.scan_folders.len()
        invariant
            before.scan_folders@.len() == after.scan_folders@.len(),
            fa == before.scan_folders@.map_values(|f: ScanFolder| folder_view(f)),
            fb == after.scan_folders@.map_values(|f: ScanFolder| folder_view(f)),
            i <= before.scan_folders@.len(),
            forall|j: int| 0 <= j < i ==> fa[j] == fb[j],
        decreases before.scan_folders@.len() - i,
    {
        if !same_folder(&before.scan_folders[i], &after.scan_folders[i]) {
            assert(fa[i as int] != fb[i as int]);
            return true;
        }
        i = i + 1;
    }
    assert(fa =~= fb);
    false
}

/// Arrow-down: the next result, wrapping around.
pub fn select_next(selected: usize, len: usize) -> (r: usize)
    requires
        len > 0,
    ensures
        r == (selected + 1) % (len as int),
        r < len,
{
    let m = selected % len;
    let r = if m + 1 == len { 0 } else { m + 1 };
    proof {
        lemma_step_mod(selected as int, len as int, 1);
    }
    r
}

/// Arrow-up: the previous result, wrapping around.
pub fn select_previous(selected: usize, len: usize) -> (r: usize)
    requires
        len > 0,
    ensures
        r == (selected + len - 1) % (len as int),
        r < len,
{
    // (selected + len - 1) % len, without the intermediate sum.
    let m = selected % len;
    let r = if m == 0 { len - 1 } else { m - 1 };
    proof {
        lemma_step_mod(selected as int, len as int, len - 1);
    }
    r
}

/// Stepping `d` (at most `len`) from `s` modulo `len` is stepping from `s % len`
/// and wrapping at most once.
proof fn lemma_step_mod(s: int, len: int, d: int)
    requires
        s >= 0,
        len > 0,
        0 <= d <= len,
    ensures
        (s + d) % len == if s % len + d < len { s % len + d } else { s % len + d - len },
{
    let q = s / len;
    let m = s % len;
    assert(s == q * len + m && 0 <= m < len) by (nonlinear_arith)
        requires
            len > 0,
            q == s / len,
            m == s % len,
    ;
    if m + d < len {
        assert((s + d) % len == m + d) by (nonlinear_arith)
            requires
                s == q * len + m,
                0 <= m + d < len,
        {
            vstd::arithmetic::div_mod::lemma_fundamental_div_mod_converse(s + d, len, q, m + d);
        }
    } else {
        assert((s + d) % len == m + d - len) by (nonlinear_arith)
            requires
                s == q * len + m,
                0 <= m + d - len < len,
        {
            vstd::arithmetic::div_mod::lemma_fundamental_div_mod_converse(s + d, len, q + 1, m + d - len);
        }
    }
}

/// The selection kept after the list was refilled with `len` results
/// (clamped to the last result, 0 for an empty list).
pub fn clamp_selection(keep: usize, len: usize) -> (r: usize)
    ensures
        r == if len == 0 { 0 } else if keep < len { keep } else { (len - 1) as usize },
{
    let last = len.saturating_sub(1);
    if keep < last { keep } else { last }
}

/// Moving down then up (or up then down) comes back to the same result.
pub proof fn law_next_previous_inverse(selected: int, len: int)
    requires
        0 <= selected < len,
    ensures
        (((selected + 1) % len) + len - 1) % len == selected,
        (((selected + len - 1) % len) + 1) % len == selected,
{
    assert((((selected + 1) % len) + len - 1) % len == selected) by (nonlinear_arith)
        requires
            0 <= selected < len,
    {
        if selected + 1 < len {
            assert((selected + 1) % len == selected + 1);
            assert((selected + len) % len == selected);
        } else {
            assert((selected + 1) % len == 0);
            assert((len - 1) % len == selected);
        }
    }
    assert((((selected + len - 1) % len) + 1) % len == selected) by (nonlinear_arith)
        requires
            0 <= selected < len,
    {
        if selected == 0 {
            assert((len - 1) % len == len - 1);
            assert(len % len == 0);
        } else {
            assert((selected + len - 1) % len == selected - 1);
            assert(selected % len == selected);
        }
    }
}

/// What executing an item does.
#[derive(PartialEq, Eq, Debug, Clone, Copy)]
pub enum Execution {
    /// Rescan the index and search again; the window stays.
    Rescan,
    /// Close the launcher.
    Quit,
    /// Hide the window first (so focus lands on whatever is launched), then
    /// run the action, recording the launch in the history when asked.
    Launch { record_history: bool },
}

/// What executing an item with `action` does: opening a file, running a
/// command or opening the config file are recorded in the history; URLs,
/// plugin callbacks and startup registration are not.
pub fn plan_execution(action: &Action) -> (r: Execution)
    ensures
        r == match action@ {
            crate::providers::ActionView::Reload => Execution::Rescan,
            crate::providers::ActionView::Quit => Execution::Quit,
            crate::providers::ActionView::Open(_) => Execution::Launch { record_history: true },
            crate::providers::ActionView::Exec { .. } => Execution::Launch { record_history: true },
            crate::providers::ActionView::OpenConfig => Execution::Launch { record_history: true },
            _ => Execution::Launch { record_history: false },
        },
{
    match action {
        Action::Reload => Execution::Rescan,
        Action::Quit => Execution::Quit,
        Action::Open(_) | Action::Exec { .. } | Action::OpenConfig => Execution::Launch { record_history: true },
        Action::Url(_) | Action::Lua(_) | Action::RegisterStartup | Action::UnregisterStartup => Execution::Launch {
            record_history: false,
        },
    }
}

/// Focus tracking of one frame: returns (whether the window has had the
/// focus, whether it must hide). The window hides when it loses the focus
/// after it first gained it.
pub fn on_focus(had_focus: bool, focused: bool) -> (r: (bool, bool))
    ensures
        r == (had_focus || focused, had_focus && !focused),
{
    if focused {
        (true, false)
    } else if had_focus {
        (true, true)
    } else {
        (false, false)
    }
}

/// The text std's `char::to_uppercase` makes of `c` (one or more characters).
pub uninterp spec fn uppercase_of(c: char) -> Seq<char>;

/// `c.to_uppercase().to_string()`.
#[verifier::external_body]
fn char_to_uppercase(c: char) -> (r: String)
    ensures
        r@ == uppercase_of(c),
{
    c.to_uppercase().to_string()
}

/// The letter drawn for items without a file icon: the title's first
/// character in upper case, or "?" for an empty title.
pub fn fallback_initial(title: &str) -> (r: String)
    ensures
        r@ == if title@.len() > 0 { uppercase_of(title@[0]) } else { "?"@ },
{
    if title.unicode_len() == 0 {
        "?".to_owned()
    } else {
        char_to_uppercase(title.get_char(0))
    }
}

} // verus!
