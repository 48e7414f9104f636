//! Windows' App Paths registry entries. Reading the registry (and checking
//! that a path names a file) is left to the caller; this module reads the
//! executable path out of a registry value and turns the entries into items.
//!
//! Unlike PATH, App Paths contains applications registered as launchable
//! programs, so it usually adds GUI applications without importing every
//! compiler/system helper executable.
use vstd::prelude::*;
use super::{cand_view, keep_first, keep_first_items, plain_item, views, Action, ActionView, Candidate, Item, ItemView};
use crate::paths::{file_stem, path_file_stem};
use crate::text::{chars_of, concat, find_from, lower_seq, occurs_at, string_from_range, to_ascii_lowercase, trim, trimmed};

verus! {

/// The first position where `needle` occurs in `hay`, if it does.
#[verifier::opaque]
pub open spec fn first_occurrence(hay: Seq<char>, needle: Seq<char>) -> Option<int> {
    if exists|i: int| occurs_at(hay, needle, i) {
        Some(choose|i: int| occurs_at(hay, needle, i) && forall|j: int| 0 <= j < i ==> !occurs_at(hay, needle, j))
    } else {
        None
    }
}

proof fn lemma_first_occurrence(hay: Seq<char>, needle: Seq<char>, i: int)
    requires
        occurs_at(hay, needle, i),
        forall|j: int| 0 <= j < i ==> !occurs_at(hay, needle, j),
    ensures
        first_occurrence(hay, needle) == Some(i),
{
    reveal(first_occurrence);
    let c = choose|c: int| occurs_at(hay, needle, c) && forall|j: int| 0 <= j < c ==> !occurs_at(hay, needle, j);
    assert(occurs_at(hay, needle, c) && forall|j: int| 0 <= j < c ==> !occurs_at(hay, needle, j));
    if c < i {
        assert(!occurs_at(hay, needle, c));
    }
    if i < c {
        assert(!occurs_at(hay, needle, i));
    }
}

/// The characters before the first '"' of `s` (all of them if there is none).
pub open spec fn before_quote(s: Seq<char>) -> Seq<char> {
    match first_occurrence(s, seq!['"']) {
        Some(i) => s.take(i),
        None => s,
    }
}

/// The end of the executable name in an unquoted value: just after the first
/// of ".exe", ".com", ".bat", ".cmd" (tried in that order) that occurs in the
/// lower-cased value.
pub open spec fn exe_end(lower: Seq<char>) -> Option<int> {
    match first_occurrence(lower, ".exe"@) {
        Some(i) => Some(i + 4),
        None => match first_occurrence(lower, ".com"@) {
            Some(i) => Some(i + 4),
            None => match first_occurrence(lower, ".bat"@) {
                Some(i) => Some(i + 4),
                None => match first_occurrence(lower, ".cmd"@) {
                    Some(i) => Some(i + 4),
                    None => None,
                },
            },
        },
    }
}

/// The executable path in an App Paths value: the quoted part of a quoted
/// value, else the value up to its executable extension, trimmed.
pub open spec fn exe_path_text(value: Seq<char>) -> Seq<char> {
    let v = trimmed(value);
    if v.len() > 0 && v[0] == '"' {
        trimmed(before_quote(v.skip(1)))
    } else {
        match exe_end(lower_seq(v)) {
            Some(end) => trimmed(v.take(end)),
            None => trimmed(v),
        }
    }
}

fn first_index(hay: &Vec<char>, needle: &str) -> (r: Option<usize>)
    ensures
        r matches Some(i) ==> first_occurrence(hay@, needle@) == Some(i as int) && i + needle@.len() <= hay@.len(),
        r is None ==> first_occurrence(hay@, needle@) is None,
{
    let n = chars_of(needle);
    match find_from(hay.as_slice(), n.as_slice(), 0) {
        Some(i) => {
            proof {
                lemma_first_occurrence(hay@, needle@, i as int);
            }
            Some(i)
        },
        None => {
            assert(!exists|i: int| occurs_at(hay@, needle@, i)) by {
                if exists|i: int| occurs_at(hay@, needle@, i) {
                    let i = choose|i: int| occurs_at(hay@, needle@, i);
                    assert(0 <= i);
                }
            }
            proof {
                reveal(first_occurrence);
            }
            None
        },
    }
}

fn quoted_part(v: &String) -> (r: String)
    requires
        v@.len() > 0,
    ensures
        r@ == before_quote(v@.skip(1)),
{
    let cs = chars_of(v.as_str());
    let rest = string_from_range(cs.as_slice(), 1, cs.len());
    let rs = chars_of(rest.as_str());
    assert(rest@ =~= v@.skip(1));
    proof {
        reveal_strlit("\"");
        assert("\""@ =~= seq!['"']);
    }
    let upto = match first_index(&rs, "\"") {
        Some(i) => i,
        None => rs.len(),
    };
    let quoted = string_from_range(rs.as_slice(), 0, upto);
    assert(quoted@ =~= before_quote(v@.skip(1)));
    quoted
}

fn end_of(ls: &Vec<char>, ext: &str) -> (r: Option<usize>)
    requires
        ext@.len() == 4,
    ensures
        match first_occurrence(ls@, ext@) {
            Some(i) => r == Some((i + 4) as usize) && 0 <= i && i + 4 <= ls@.len(),
            None => r is None,
        },
{
    let n = ls.len();
    match first_index(ls, ext) {
        Some(i) => Some(i + 4),
        None => None,
    }
}

fn exe_end_of(ls: &Vec<char>) -> (r: Option<usize>)
    ensures
        match exe_end(ls@) {
            Some(e) => r == Some(e as usize) && 0 <= e <= ls@.len(),
            None => r is None,
        },
{
    proof {
        reveal_strlit(".exe");
        reveal_strlit(".com");
        reveal_strlit(".bat");
        reveal_strlit(".cmd");
    }
    match end_of(ls, ".exe") {
        Some(e) => Some(e),
        None => match end_of(ls, ".com") {
            Some(e) => Some(e),
            None => match end_of(ls, ".bat") {
                Some(e) => Some(e),
                None => end_of(ls, ".cmd"),
            },
        },
    }
}

/// Reads the executable path out of an App Paths registry value (the caller
/// then keeps it only if it names an existing file).
pub fn parse_executable_path(value: &str) -> (r: String)
    ensures
        r@ == exe_path_text(value@),
{
    let v = trim(value);
    let cs = chars_of(v.as_str());
    if cs.len() > 0 && cs[0] == '"' {
        let quoted = quoted_part(&v);
        return trim(quoted.as_str());
    }
    let lower = to_ascii_lowercase(v.as_str());
    let ls = chars_of(lower.as_str());
    assert(ls@.len() == cs@.len());
    match exe_end_of(&ls) {
        Some(e) => {
            let head = string_from_range(cs.as_slice(), 0, e);
            assert(head@ =~= v@.take(e as int));
            trim(head.as_str())
        },
        None => trim(v.as_str()),
    }
}

/// An App Paths entry whose path names an existing file.
pub struct RegisteredApp {
    /// The executable's path (`parse_executable_path` of the default value).
    pub path: String,
    /// The FriendlyAppName value, if any.
    pub friendly: Option<String>,
    /// The name of the entry's registry key.
    pub subkey: String,
}

/// The title of an App Paths entry: its friendly name unless that is blank,
/// else its file name.
pub open spec fn registered_title(friendly: Option<Seq<char>>, file_name: Seq<char>) -> Seq<char> {
    match friendly {
        Some(f) => if trimmed(f).len() > 0 { f } else { file_name },
        None => file_name,
    }
}

/// What an App Paths entry contributes, keyed by its lower-cased path; Start
/// Menu apps still win when the same title is present.
pub open spec fn registered_candidate(a: RegisteredApp) -> Option<(Seq<char>, ItemView)> {
    match path_file_stem(a.path@) {
        Some(file_name) => {
            let title = registered_title(
                match a.friendly {
                    Some(f) => Some(f@),
                    None => None,
                },
                file_name,
            );
            Some(
                (
                    lower_seq(a.path@),
                    ItemView {
                        key: title + " "@ + file_name + " "@ + a.subkey@,
                        rank_boost: 35,
                        ..plain_item(title, a.path@, ActionView::Open(a.path@))
                    },
                ),
            )
        },
        None => None,
    }
}

fn candidate(a: &RegisteredApp) -> (r: Candidate)
    ensures
        cand_view(r) == registered_candidate(*a),
{
    let file_name = match file_stem(a.path.as_str()) {
        Some(n) => n,
        None => return None,
    };
    let title = match &a.friendly {
        Some(f) => {
            let t = trim(f.as_str());
            if t.as_str().is_empty() {
                file_name.clone()
            } else {
                f.clone()
            }
        },
        None => file_name.clone(),
    };
    let key = concat(
        concat(concat(concat(title.as_str(), " ").as_str(), file_name.as_str()).as_str(), " ").as_str(),
        a.subkey.as_str(),
    );
    let mut item = Item::new(title, a.path.clone(), Action::Open(a.path.clone()));
    item.key = key;
    // Start Menu apps still win when the same title is present.
    item.rank_boost = 35;
    Some((to_ascii_lowercase(a.path.as_str()), item))
}

/// Scan Windows' App Paths registry entries `apps`, in registry order
/// (HKCU then HKLM, each in the 64-bit then the 32-bit view).
pub fn scan(apps: &[RegisteredApp]) -> (r: Vec<Item>)
    ensures
        views(r@) == keep_first(apps@.map_values(|a: RegisteredApp| registered_candidate(a))),
{
    let mut cands: Vec<Candidate> = Vec::new();
    let mut i: usize = 0;
    while i < apps.len()
        invariant
            i <= apps@.len(),
            cands@.map_values(|c: Candidate| cand_view(c)) == apps@.subrange(0, i as int).map_values(
                |a: RegisteredApp| registered_candidate(a),
            ),
        decreases apps@.len() - i,
    {
        let c = candidate(&apps[i]);
        let ghost prev = cands@;
        cands.push(c);
        assert(cands@.map_values(|c: Candidate| cand_view(c)) =~= prev.map_values(|c: Candidate| cand_view(c)).push(
            registered_candidate(apps@[i as int]),
        ));
        assert(apps@.subrange(0, i + 1) =~= apps@.subrange(0, i as int).push(apps@[i as int]));
        i = i + 1;
    }
    assert(apps@.subrange(0, apps@.len() as int) =~= apps@);
    keep_first_items(cands)
}

/// An unquoted App Paths value is cut just after the first ".exe" (in any
/// letter case) and trimmed, whatever comes before it, spaces included: the
/// path keeps all of "C:\\Program Files\\...\\app.exe".
pub proof fn law_unquoted_value_cut_after_first_exe(value: Seq<char>, i: int)
    requires
        !(trimmed(value).len() > 0 && trimmed(value)[0] == '"'),
        0 <= i,
        i + 4 <= trimmed(value).len(),
        lower_seq(trimmed(value)).subrange(i, i + 4) == seq!['.', 'e', 'x', 'e'],
        forall|j: int|
            0 <= j < i && j + 4 <= trimmed(value).len() ==> #[trigger] lower_seq(trimmed(value)).subrange(j, j + 4) != seq![
                '.',
                'e',
                'x',
                'e',
            ],
    ensures
        exe_path_text(value) == trimmed(trimmed(value).take(i + 4)),
{
    reveal_strlit(".exe");
    let l = lower_seq(trimmed(value));
    assert(".exe"@ =~= seq!['.', 'e', 'x', 'e']);
    assert forall|j: int| 0 <= j < i implies !occurs_at(l, ".exe"@, j) by {
        if j + 4 <= l.len() {
            assert(l.subrange(j, j + 4) != seq!['.', 'e', 'x', 'e']);
        }
    }
    lemma_first_occurrence(l, ".exe"@, i);
}

/// Without any of ".exe", ".com", ".bat", ".cmd" in it, an unquoted value is
/// taken whole, trimmed.
pub proof fn law_unquoted_value_without_extension(value: Seq<char>)
    requires
        !(trimmed(value).len() > 0 && trimmed(value)[0] == '"'),
        forall|j: int|
            0 <= j && j + 4 <= trimmed(value).len() ==> {
                let w = #[trigger] lower_seq(trimmed(value)).subrange(j, j + 4);
                &&& w != seq!['.', 'e', 'x', 'e']
                &&& w != seq!['.', 'c', 'o', 'm']
                &&& w != seq!['.', 'b', 'a', 't']
                &&& w != seq!['.', 'c', 'm', 'd']
            },
    ensures
        exe_path_text(value) == trimmed(trimmed(value)),
{
    reveal_strlit(".exe");
    reveal_strlit(".com");
    reveal_strlit(".bat");
    reveal_strlit(".cmd");
    reveal(first_occurrence);
    let l = lower_seq(trimmed(value));
    assert(".exe"@ =~= seq!['.', 'e', 'x', 'e']);
    assert(".com"@ =~= seq!['.', 'c', 'o', 'm']);
    assert(".bat"@ =~= seq!['.', 'b', 'a', 't']);
    assert(".cmd"@ =~= seq!['.', 'c', 'm', 'd']);
    assert(!exists|j: int| occurs_at(l, ".exe"@, j));
    assert(!exists|j: int| occurs_at(l, ".com"@, j));
    assert(!exists|j: int| occurs_at(l, ".bat"@, j));
    assert(!exists|j: int| occurs_at(l, ".cmd"@, j));
}

} // verus!
