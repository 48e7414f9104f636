//! Start Menu shortcuts (.lnk / .url). Walking the Start Menu folders is left
//! to the caller, which hands over the paths found, in order.
use vstd::prelude::*;
use super::{cand_view, keep_first, keep_first_items, plain_item, views, Action, ActionView, Candidate, Item, ItemView};
use crate::config::{joined_path, path_join};
use crate::paths::{extension, file_stem, path_extension, path_file_stem};
use crate::text::{contains, contains_seq, lower_seq, str_eq, to_ascii_lowercase};

verus! {

/// Start Menu programs folder below a user's or all users' profile folder.
pub open spec fn programs_folder(base: Seq<char>) -> Seq<char> {
    joined_path(base, "Microsoft\\Windows\\Start Menu\\Programs"@)
}

/// The Start Menu folders to walk: below %APPDATA% and below %ProgramData%,
/// for each variable that is set.
pub fn roots(appdata: Option<&str>, program_data: Option<&str>) -> (r: Vec<String>)
    ensures
        r@.map_values(|s: String| s@) == (match appdata {
            Some(a) => seq![programs_folder(a@)],
            None => Seq::empty(),
        }) + (match program_data {
            Some(p) => seq![programs_folder(p@)],
            None => Seq::empty(),
        }),
{
    let mut roots: Vec<String> = Vec::new();
    if let Some(a) = appdata {
        roots.push(path_join(a, "Microsoft\\Windows\\Start Menu\\Programs"));
    }
    let ghost first = roots@;
    if let Some(p) = program_data {
        roots.push(path_join(p, "Microsoft\\Windows\\Start Menu\\Programs"));
    }
    proof {
        assert(roots@.map_values(|s: String| s@) =~= (match appdata {
            Some(a) => seq![programs_folder(a@)],
            None => Seq::<Seq<char>>::empty(),
        }) + (match program_data {
            Some(p) => seq![programs_folder(p@)],
            None => Seq::<Seq<char>>::empty(),
        }));
    }
    roots
}

/// What a path found in the Start Menu contributes: a .lnk or .url shortcut
/// whose name does not mention "uninstall", keyed by its lower-cased name.
pub open spec fn start_menu_candidate(path: Seq<char>) -> Option<(Seq<char>, ItemView)> {
    match (path_extension(path), path_file_stem(path)) {
        (Some(ext), Some(name)) => if (lower_seq(ext) == "lnk"@ || lower_seq(ext) == "url"@) && !contains_seq(
            lower_seq(name),
            "uninstall"@,
        ) {
            Some((lower_seq(name), plain_item(name, "アプリ"@, ActionView::Open(path))))
        } else {
            None
        },
        _ => None,
    }
}

fn candidate(path: &String) -> (r: Candidate)
    ensures
        cand_view(r) == start_menu_candidate(path@),
{
    let ext = match extension(path.as_str()) {
        Some(e) => to_ascii_lowercase(e.as_str()),
        None => return None,
    };
    if !(str_eq(ext.as_str(), "lnk") || str_eq(ext.as_str(), "url")) {
        return None;
    }
    let name = match file_stem(path.as_str()) {
        Some(n) => n,
        None => return None,
    };
    let lower = to_ascii_lowercase(name.as_str());
    if contains(lower.as_str(), "uninstall") {
        return None;
    }
    Some((lower, Item::new(name, "アプリ".to_owned(), Action::Open(path.clone()))))
}

/// Scan Start Menu (user + common) for .lnk / .url shortcuts: `paths` are the
/// files found below the roots, in walking order.
pub fn scan(paths: &[String]) -> (r: Vec<Item>)
    ensures
        views(r@) == keep_first(paths@.map_values(|p: String| start_menu_candidate(p@))),
{
    let mut cands: Vec<Candidate> = Vec::new();
    let mut i: usize = 0;
    while i < paths.len()
        invariant
            i <= paths@.len(),
            cands@.map_values(|c: Candidate| cand_view(c)) == paths@.subrange(0, i as int).map_values(
                |p: String| start_menu_candidate(p@),
            ),
        decreases paths@.len() - i,
    {
        let c = candidate(&paths[i]);
        let ghost prev = cands@;
        cands.push(c);
        assert(cands@.map_values(|c: Candidate| cand_view(c)) =~= prev.map_values(|c: Candidate| cand_view(c)).push(start_menu_candidate(paths@[i as int]@)));
        assert(paths@.subrange(0, i + 1) =~= paths@.subrange(0, i as int).push(paths@[i as int]));
        assert(cands@.map_values(|c: Candidate| cand_view(c)) =~= paths@.subrange(0, i + 1).map_values(
            |p: String| start_menu_candidate(p@),
        ));
        i = i + 1;
    }
    assert(paths@.subrange(0, paths@.len() as int) =~= paths@);
    keep_first_items(cands)
}

} // verus!
