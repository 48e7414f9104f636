//! Executables on PATH and in Chocolatey's shim folder. Listing the folders is
//! left to the caller, which hands over the files found, folder by folder.
use vstd::prelude::*;
use super::{cand_view, keep_first, keep_first_items, plain_item, views, Action, ActionView, Candidate, Item, ItemView};
use crate::config::{joined_path, path_join};
use crate::paths::{extension, file_stem, path_extension, path_file_stem};
use crate::text::{concat, lower_seq, str_eq, to_ascii_lowercase};

verus! {

/// Extensions of the files taken as executables.
pub open spec fn is_exe_ext(ext: Seq<char>) -> bool {
    ext == "exe"@ || ext == "bat"@ || ext == "cmd"@ || ext == "com"@
}

/// What a file found on PATH contributes: an executable, keyed by its
/// lower-cased name, shown with its path.
pub open spec fn exe_candidate(path: Seq<char>) -> Option<(Seq<char>, ItemView)> {
    match (path_extension(path), path_file_stem(path)) {
        (Some(ext), Some(name)) => if is_exe_ext(lower_seq(ext)) {
            Some((lower_seq(name), plain_item(name, path, ActionView::Open(path))))
        } else {
            None
        },
        _ => None,
    }
}

fn candidate(path: &String) -> (r: Candidate)
    ensures
        cand_view(r) == exe_candidate(path@),
{
    let ext = match extension(path.as_str()) {
        Some(e) => to_ascii_lowercase(e.as_str()),
        None => return None,
    };
    let e = ext.as_str();
    if !(str_eq(e, "exe") || str_eq(e, "bat") || str_eq(e, "cmd") || str_eq(e, "com")) {
        return None;
    }
    let name = match file_stem(path.as_str()) {
        Some(n) => n,
        None => return None,
    };
    let lower = to_ascii_lowercase(name.as_str());
    Some((lower, Item::new(name, path.clone(), Action::Open(path.clone()))))
}

/// Every executable among `entries`, skipping names already seen.
fn scan_dir(entries: &[String]) -> (r: Vec<Item>)
    ensures
        views(r@) == keep_first(entries@.map_values(|p: String| exe_candidate(p@))),
{
    let mut cands: Vec<Candidate> = Vec::new();
    let mut i: usize = 0;
    while i < entries.len()
        invariant
            i <= entries@.len(),
            cands@.map_values(|c: Candidate| cand_view(c)) == entries@.subrange(0, i as int).map_values(
                |p: String| exe_candidate(p@),
            ),
        decreases entries@.len() - i,
    {
        let c = candidate(&entries[i]);
        let ghost prev = cands@;
        cands.push(c);
        assert(cands@.map_values(|c: Candidate| cand_view(c)) =~= prev.map_values(|c: Candidate| cand_view(c)).push(
            exe_candidate(entries@[i as int]@),
        ));
        assert(entries@.subrange(0, i + 1) =~= entries@.subrange(0, i as int).push(entries@[i as int]));
        i = i + 1;
    }
    assert(entries@.subrange(0, entries@.len() as int) =~= entries@);
    keep_first_items(cands)
}

/// Scan executables on PATH: `entries` are the files of every PATH folder,
/// folder after folder.
pub fn scan(entries: &[String]) -> (r: Vec<Item>)
    ensures
        views(r@) == keep_first(entries@.map_values(|p: String| exe_candidate(p@))),
{
    scan_dir(entries)
}

/// An executable of Chocolatey's shim folder.
pub open spec fn chocolatey_item(it: ItemView) -> ItemView {
    ItemView { subtitle: "Chocolatey - "@ + it.subtitle, rank_boost: 40, ..it }
}

/// Scan Chocolatey's shim folder (%ChocolateyInstall%\bin, default
/// C:\ProgramData\chocolatey\bin), whose files are `entries`. Independent of
/// `scan_path` so choco tools can be indexed without pulling in every exe on PATH.
pub fn scan_chocolatey(entries: &[String]) -> (r: Vec<Item>)
    ensures
        views(r@) == keep_first(entries@.map_values(|p: String| exe_candidate(p@))).map_values(
            |it: ItemView| chocolatey_item(it),
        ),
{
    let mut items = scan_dir(entries);
    let ghost base = views(items@);
    let mut i: usize = 0;
    while i < items.len()
        invariant
            i <= items@.len(),
            items@.len() == base.len(),
            forall|j: int| 0 <= j < i ==> (#[trigger] items@[j])@ == chocolatey_item(base[j]),
            forall|j: int| i <= j < items@.len() ==> (#[trigger] items@[j])@ == base[j],
        decreases items@.len() - i,
    {
        let mut item = items[i].clone();
        item.subtitle = concat("Chocolatey - ", item.subtitle.as_str());
        // User opted in explicitly; rank alongside Start Menu apps.
        item.rank_boost = 40;
        items.set(i, item);
        i = i + 1;
    }
    assert(views(items@) =~= base.map_values(|it: ItemView| chocolatey_item(it)));
    items
}

/// Chocolatey's root folder: %ChocolateyInstall%, else %ProgramData%\chocolatey,
/// else C:\ProgramData\chocolatey.
pub open spec fn chocolatey_root(install: Option<Seq<char>>, program_data: Option<Seq<char>>) -> Seq<char> {
    match install {
        Some(dir) => dir,
        None => match program_data {
            Some(dir) => joined_path(dir, "chocolatey"@),
            None => "C:\\ProgramData\\chocolatey"@,
        },
    }
}

/// Chocolatey's shim folder, from %ChocolateyInstall% and %ProgramData%.
pub fn chocolatey_bin(install: Option<&str>, program_data: Option<&str>) -> (r: String)
    ensures
        r@ == joined_path(
            chocolatey_root(
                match install {
                    Some(d) => Some(d@),
                    None => None,
                },
                match program_data {
                    Some(d) => Some(d@),
                    None => None,
                },
            ),
            "bin"@,
        ),
{
    let root = match install {
        Some(dir) => dir.to_owned(),
        None => match program_data {
            Some(dir) => path_join(dir, "chocolatey"),
            None => "C:\\ProgramData\\chocolatey".to_owned(),
        },
    };
    path_join(root.as_str(), "bin")
}

} // verus!
