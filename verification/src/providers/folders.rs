//! Files of user-configured folders ([[scan_folders]] in config.toml). Walking
//! the folders is left to the caller, which hands over the files found.
use vstd::prelude::*;
use super::{cand_view, keep_first, keep_first_items, plain_item, views, Action, ActionView, Candidate, Item, ItemView};
use crate::config::ScanFolder;
use crate::paths::{extension, file_stem, path_extension, path_file_stem};
use crate::text::{lower_seq, str_eq, to_ascii_lowercase};

verus! {

/// A file found while walking scan folder number `folder`.
pub struct FolderEntry {
    pub folder: usize,
    pub path: String,
}

/// How deep to walk a folder: its `depth`, but at least 1 (its own files).
pub fn walk_depth(folder: &ScanFolder) -> (r: usize)
    ensures
        r == if folder.depth < 1 { 1 } else { folder.depth },
{
    if folder.depth < 1 { 1 } else { folder.depth }
}

/// The extensions taken from a folder: its own list lower-cased, or
/// exe/lnk/bat/cmd/url.
pub open spec fn folder_extensions(folder: ScanFolder) -> Seq<Seq<char>> {
    match folder.extensions {
        Some(exts) => exts@.map_values(|e: String| lower_seq(e@)),
        None => seq!["exe"@, "lnk"@, "bat"@, "cmd"@, "url"@],
    }
}

/// What a file of a scan folder contributes: a file with one of the folder's
/// extensions, keyed by its lower-cased path, ranked alongside Start Menu apps.
pub open spec fn folder_candidate(folders: Seq<ScanFolder>, e: FolderEntry) -> Option<(Seq<char>, ItemView)> {
    match (path_extension(e.path@), path_file_stem(e.path@)) {
        (Some(ext), Some(name)) => if folder_extensions(folders[e.folder as int]).contains(lower_seq(ext)) {
            Some(
                (
                    lower_seq(e.path@),
                    ItemView { rank_boost: 40, ..plain_item(name, e.path@, ActionView::Open(e.path@)) },
                ),
            )
        } else {
            None
        },
        _ => None,
    }
}

fn extensions_of(folder: &ScanFolder) -> (r: Vec<String>)
    ensures
        r@.map_values(|e: String| e@) == folder_extensions(*folder),
{
    let mut out: Vec<String> = Vec::new();
    match &folder.extensions {
        Some(exts) => {
            let mut i: usize = 0;
            while i < exts.len()
                invariant
                    i <= exts@.len(),
                    out@.map_values(|e: String| e@) == exts@.subrange(0, i as int).map_values(|e: String| lower_seq(e@)),
                decreases exts@.len() - i,
            {
                let ghost prev = out@;
                out.push(to_ascii_lowercase(exts[i].as_str()));
                assert(out@.map_values(|e: String| e@) =~= prev.map_values(|e: String| e@).push(lower_seq(exts@[i as int]@)));
                assert(exts@.subrange(0, i + 1) =~= exts@.subrange(0, i as int).push(exts@[i as int]));
                i = i + 1;
            }
            assert(exts@.subrange(0, exts@.len() as int) =~= exts@);
        },
        None => {
            out.push("exe".to_owned());
            out.push("lnk".to_owned());
            out.push("bat".to_owned());
            out.push("cmd".to_owned());
            out.push("url".to_owned());
        },
    }
    assert(out@.map_values(|e: String| e@) =~= folder_extensions(*folder));
    out
}

fn has_extension(exts: &Vec<String>, ext: &str) -> (r: bool)
    ensures
        r == exts@.map_values(|e: String| e@).contains(ext@),
{
    let mut i: usize = 0;
    while i < exts.len()
        invariant
            i <= exts@.len(),
            forall|j: int| 0 <= j < i ==> (#[trigger] exts@[j])@ != ext@,
        decreases exts@.len() - i,
    {
        if str_eq(exts[i].as_str(), ext) {
            assert(exts@.map_values(|e: String| e@)[i as int] == ext@);
            return true;
        }
        i = i + 1;
    }
    proof {
        let m = exts@.map_values(|e: String| e@);
        if m.contains(ext@) {
            let j = choose|j: int| 0 <= j < m.len() && #[trigger] m[j] == ext@;
            assert(exts@[j]@ == ext@);
        }
    }
    false
}

fn candidate(folder_exts: &Vec<String>, path: &String) -> (r: Candidate)
    ensures
        cand_view(r) == match (path_extension(path@), path_file_stem(path@)) {
            (Some(ext), Some(name)) => if folder_exts@.map_values(|e: String| e@).contains(lower_seq(ext)) {
                Some(
                    (
                        lower_seq(path@),
                        ItemView { rank_boost: 40, ..plain_item(name, path@, ActionView::Open(path@)) },
                    ),
                )
            } else {
                None
            },
            _ => None,
        },
{
    let ext = match extension(path.as_str()) {
        Some(e) => to_ascii_lowercase(e.as_str()),
        None => return None,
    };
    if !has_extension(folder_exts, ext.as_str()) {
        return None;
    }
    let name = match file_stem(path.as_str()) {
        Some(n) => n,
        None => return None,
    };
    let mut item = Item::new(name, path.clone(), Action::Open(path.clone()));
    // User picked these folders explicitly; rank alongside Start Menu apps.
    item.rank_boost = 40;
    Some((to_ascii_lowercase(path.as_str()), item))
}

/// Scan user-configured folders: `entries` are the files found below each
/// folder (up to its `walk_depth`), folder after folder.
pub fn scan(folders: &[ScanFolder], entries: &[FolderEntry]) -> (r: Vec<Item>)
    requires
        forall|i: int| 0 <= i < entries@.len() ==> (#[trigger] entries@[i]).folder < folders@.len(),
    ensures
        views(r@) == keep_first(entries@.map_values(|e: FolderEntry| folder_candidate(folders@, e))),
{
    let mut exts: Vec<Vec<String>> = Vec::new();
    let mut f: usize = 0;
    while f < folders.len()
        invariant
            f <= folders@.len(),
            exts@.len() == f,
            forall|j: int| 0 <= j < f ==> (#[trigger] exts@[j])@.map_values(|e: String| e@) == folder_extensions(folders@[j]),
        decreases folders@.len() - f,
    {
        exts.push(extensions_of(&folders[f]));
        f = f + 1;
    }
    let mut cands: Vec<Candidate> = Vec::new();
    let mut i: usize = 0;
    while i < entries.len()
        invariant
            i <= entries@.len(),
            exts@.len() == folders@.len(),
            forall|j: int| 0 <= j < folders@.len() ==> (#[trigger] exts@[j])@.map_values(|e: String| e@) == folder_extensions(folders@[j]),
            forall|j: int| 0 <= j < entries@.len() ==> (#[trigger] entries@[j]).folder < folders@.len(),
            cands@.map_values(|c: Candidate| cand_view(c)) == entries@.subrange(0, i as int).map_values(
                |e: FolderEntry| folder_candidate(folders@, e),
            ),
        decreases entries@.len() - i,
    {
        let e = &entries[i];
        let c = candidate(&exts[e.folder], &e.path);
        let ghost prev = cands@;
        cands.push(c);
        assert(cands@.map_values(|c: Candidate| cand_view(c)) =~= prev.map_values(|c: Candidate| cand_view(c)).push(
            folder_candidate(folders@, entries@[i as int]),
        ));
        assert(entries@.subrange(0, i + 1) =~= entries@.subrange(0, i as int).push(entries@[i as int]));
        i = i + 1;
    }
    assert(entries@.subrange(0, entries@.len() as int) =~= entries@);
    keep_first_items(cands)
}

} // verus!
