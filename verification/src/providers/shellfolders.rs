//! Frequently visited Windows folders (Downloads, AppData, Temp, Program
//! Files...). They have no Start Menu entry and are tedious to reach through
//! Explorer, so we list them explicitly.
//!
//! User folders come from `dirs`, which asks the shell for the known folder
//! and therefore follows OneDrive redirection; the rest come from environment
//! variables. The caller looks those up, and checks which candidate folders
//! exist; entries whose folder does not exist are dropped.
use vstd::prelude::*;
use super::{cand_view, keep_first, law_keep_first_no_duplicates, keep_first_items, plain_item, views, Action, ActionView, Candidate, Item, ItemView};
use crate::config::{joined_path, path_join};
use crate::text::{concat, lower_seq, to_ascii_lowercase};

verus! {

/// The folders that the candidates are made from (`None` where unknown).
pub struct ShellFolderBases {
    pub home: Option<String>,
    pub desktop: Option<String>,
    pub download: Option<String>,
    pub document: Option<String>,
    pub picture: Option<String>,
    pub video: Option<String>,
    pub audio: Option<String>,
    /// %OneDrive%
    pub onedrive: Option<String>,
    /// %APPDATA%
    pub appdata: Option<String>,
    /// %LOCALAPPDATA%
    pub local_appdata: Option<String>,
    /// %TEMP%
    pub temp: Option<String>,
    /// %ProgramFiles%
    pub program_files: Option<String>,
    /// %ProgramFiles(x86)%
    pub program_files_x86: Option<String>,
    /// %ProgramData%
    pub program_data: Option<String>,
    /// %PUBLIC%
    pub public: Option<String>,
    /// %WINDIR%
    pub windir: Option<String>,
}

/// A folder that may be listed: its title, the aliases it is also found by,
/// and its path if known.
pub struct FolderCandidate {
    pub title: String,
    pub aliases: String,
    pub path: Option<String>,
}

pub open spec fn ov(s: Option<String>) -> Option<Seq<char>> {
    match s {
        Some(v) => Some(v@),
        None => None,
    }
}

pub open spec fn join_opt(base: Option<Seq<char>>, rel: Seq<char>) -> Option<Seq<char>> {
    match base {
        Some(b) => Some(joined_path(b, rel)),
        None => None,
    }
}

/// %WINDIR%, or C:\Windows when unset.
pub open spec fn windows_dir(b: ShellFolderBases) -> Seq<char> {
    match b.windir {
        Some(w) => w@,
        None => "C:\\Windows"@,
    }
}

/// The candidate folders, in listing order: (title, match aliases, path).
pub open spec fn candidate_table(b: ShellFolderBases) -> Seq<(Seq<char>, Seq<char>, Option<Seq<char>>)> {
    let home = ov(b.home);
    let appdata = ov(b.appdata);
    let windir = windows_dir(b);
    seq![
        ("ホーム"@, "home user profile userprofile"@, home),
        ("デスクトップ"@, "desktop"@, ov(b.desktop)),
        ("ダウンロード"@, "downloads download"@, ov(b.download)),
        ("ドキュメント"@, "documents my documents"@, ov(b.document)),
        ("ピクチャ"@, "pictures photos images"@, ov(b.picture)),
        ("ビデオ"@, "videos movies"@, ov(b.video)),
        ("ミュージック"@, "music audio"@, ov(b.audio)),
        ("OneDrive"@, "onedrive"@, ov(b.onedrive)),
        ("AppData"@, "appdata アプリデータ"@, join_opt(home, "AppData"@)),
        ("AppData\\Roaming"@, "appdata roaming"@, appdata),
        ("AppData\\Local"@, "appdata local localappdata"@, ov(b.local_appdata)),
        ("AppData\\LocalLow"@, "appdata locallow"@, join_opt(home, "AppData\\LocalLow"@)),
        ("Temp"@, "temp tmp local temp 一時ファイル"@, ov(b.temp)),
        ("スタートアップ"@, "startup 自動起動"@, join_opt(appdata, "Microsoft\\Windows\\Start Menu\\Programs\\Startup"@)),
        ("最近使ったファイル"@, "recent items 履歴"@, join_opt(appdata, "Microsoft\\Windows\\Recent"@)),
        ("Program Files"@, "program files"@, ov(b.program_files)),
        ("Program Files (x86)"@, "program files x86"@, ov(b.program_files_x86)),
        ("ProgramData"@, "programdata"@, ov(b.program_data)),
        ("Public"@, "public users public 共有"@, ov(b.public)),
        ("Windows"@, "windows windir"@, Some(windir)),
        ("System32"@, "system32 system"@, Some(joined_path(windir, "System32"@))),
    ]
}

fn clone_opt(s: &Option<String>) -> (r: Option<String>)
    ensures
        ov(r) == ov(*s),
{
    match s {
        Some(v) => Some(v.clone()),
        None => None,
    }
}

fn join(base: &Option<String>, rel: &str) -> (r: Option<String>)
    ensures
        ov(r) == join_opt(ov(*base), rel@),
{
    match base {
        Some(b) => Some(path_join(b.as_str(), rel)),
        None => None,
    }
}

fn cand(title: &str, aliases: &str, path: Option<String>) -> (r: FolderCandidate)
    ensures
        r.title@ == title@,
        r.aliases@ == aliases@,
        ov(r.path) == ov(path),
{
    FolderCandidate { title: title.to_owned(), aliases: aliases.to_owned(), path }
}

/// The candidate folders for the given base folders.
pub fn candidates(b: &ShellFolderBases) -> (r: Vec<FolderCandidate>)
    ensures
        r@.map_values(|c: FolderCandidate| (c.title@, c.aliases@, ov(c.path))) == candidate_table(*b),
{
    let windir = match &b.windir {
        Some(w) => w.clone(),
        None => "C:\\Windows".to_owned(),
    };
    let mut v: Vec<FolderCandidate> = Vec::new();
    v.push(cand("ホーム", "home user profile userprofile", clone_opt(&b.home)));
    v.push(cand("デスクトップ", "desktop", clone_opt(&b.desktop)));
    v.push(cand("ダウンロード", "downloads download", clone_opt(&b.download)));
    v.push(cand("ドキュメント", "documents my documents", clone_opt(&b.document)));
    v.push(cand("ピクチャ", "pictures photos images", clone_opt(&b.picture)));
    v.push(cand("ビデオ", "videos movies", clone_opt(&b.video)));
    v.push(cand("ミュージック", "music audio", clone_opt(&b.audio)));
    v.push(cand("OneDrive", "onedrive", clone_opt(&b.onedrive)));
    v.push(cand("AppData", "appdata アプリデータ", join(&b.home, "AppData")));
    v.push(cand("AppData\\Roaming", "appdata roaming", clone_opt(&b.appdata)));
    v.push(cand("AppData\\Local", "appdata local localappdata", clone_opt(&b.local_appdata)));
    v.push(cand("AppData\\LocalLow", "appdata locallow", join(&b.home, "AppData\\LocalLow")));
    v.push(cand("Temp", "temp tmp local temp 一時ファイル", clone_opt(&b.temp)));
    v.push(cand("スタートアップ", "startup 自動起動", join(&b.appdata, "Microsoft\\Windows\\Start Menu\\Programs\\Startup")));
    v.push(cand("最近使ったファイル", "recent items 履歴", join(&b.appdata, "Microsoft\\Windows\\Recent")));
    v.push(cand("Program Files", "program files", clone_opt(&b.program_files)));
    v.push(cand("Program Files (x86)", "program files x86", clone_opt(&b.program_files_x86)));
    v.push(cand("ProgramData", "programdata", clone_opt(&b.program_data)));
    v.push(cand("Public", "public users public 共有", clone_opt(&b.public)));
    v.push(cand("Windows", "windows windir", Some(windir.clone())));
    v.push(cand("System32", "system32 system", Some(path_join(windir.as_str(), "System32"))));
    assert(v@.map_values(|c: FolderCandidate| (c.title@, c.aliases@, ov(c.path))) =~= candidate_table(*b));
    v
}

/// What a candidate contributes when `is_dir` says whether its folder exists:
/// an item keyed by the lower-cased path (%ProgramFiles(x86)% == %ProgramFiles%
/// on 32-bit, OneDrive may be the home of the redirected user folders, ...),
/// ranked below Start Menu apps and curated tools.
pub open spec fn folder_candidate(c: (Seq<char>, Seq<char>, Option<Seq<char>>), is_dir: bool) -> Option<
    (Seq<char>, ItemView),
> {
    match c.2 {
        Some(path) => if is_dir {
            Some(
                (
                    lower_seq(path),
                    ItemView {
                        key: c.0 + " "@ + c.1,
                        rank_boost: 30,
                        ..plain_item(c.0, path, ActionView::Open(path))
                    },
                ),
            )
        } else {
            None
        },
        None => None,
    }
}

/// The candidates' views paired with whether each folder exists.
pub open spec fn folder_candidates(cands: Seq<FolderCandidate>, is_dir: Seq<bool>) -> Seq<Option<(Seq<char>, ItemView)>> {
    Seq::new(cands.len(), |i: int| folder_candidate((cands[i].title@, cands[i].aliases@, ov(cands[i].path)), is_dir[i]))
}

/// The existing folders among `cands`; `is_dir[i]` tells whether the folder of
/// `cands[i]` exists.
pub fn scan(cands: &[FolderCandidate], is_dir: &[bool]) -> (r: Vec<Item>)
    requires
        is_dir@.len() == cands@.len(),
    ensures
        views(r@) == keep_first(folder_candidates(cands@, is_dir@)),
{
    let mut cs: Vec<Candidate> = Vec::new();
    let mut i: usize = 0;
    while i < cands.len()
        invariant
            i <= cands@.len(),
            is_dir@.len() == cands@.len(),
            cs@.map_values(|c: Candidate| cand_view(c)) == folder_candidates(cands@, is_dir@).take(i as int),
        decreases cands@.len() - i,
    {
        let c = &cands[i];
        let next: Candidate = match &c.path {
            Some(path) => {
                if is_dir[i] {
                    let mut item = Item::new(c.title.clone(), path.clone(), Action::Open(path.clone()));
                    item.key = concat(concat(c.title.as_str(), " ").as_str(), c.aliases.as_str());
                    // Below Start Menu apps and curated tools (40): typing an app name that
                    // happens to look like a folder should still put the app first.
                    item.rank_boost = 30;
                    Some((to_ascii_lowercase(path.as_str()), item))
                } else {
                    None
                }
            },
            None => None,
        };
        let ghost prev = cs@;
        cs.push(next);
        assert(cs@.map_values(|c: Candidate| cand_view(c)) =~= prev.map_values(|c: Candidate| cand_view(c)).push(
            folder_candidates(cands@, is_dir@)[i as int],
        ));
        assert(folder_candidates(cands@, is_dir@).take(i + 1) =~= folder_candidates(cands@, is_dir@).take(i as int).push(
            folder_candidates(cands@, is_dir@)[i as int],
        ));
        i = i + 1;
    }
    assert(folder_candidates(cands@, is_dir@).take(cands@.len() as int) =~= folder_candidates(cands@, is_dir@));
    keep_first_items(cs)
}

/// The same folder is never listed twice: the listed items' paths differ
/// even ignoring ASCII case.
pub proof fn law_folders_listed_once(cands: Seq<FolderCandidate>, is_dir: Seq<bool>)
    requires
        is_dir.len() == cands.len(),
    ensures
        forall|a: int, b: int|
            0 <= a < b < keep_first(folder_candidates(cands, is_dir)).len() ==> lower_seq(
                (#[trigger] keep_first(folder_candidates(cands, is_dir))[a]).subtitle,
            ) != lower_seq((#[trigger] keep_first(folder_candidates(cands, is_dir))[b]).subtitle),
{
    let c = folder_candidates(cands, is_dir);
    let f = |it: ItemView| lower_seq(it.subtitle);
    assert forall|i: int| 0 <= i < c.len() && (#[trigger] c[i]) is Some implies c[i].unwrap().0 == f(c[i].unwrap().1) by {}
    law_keep_first_no_duplicates(c, f);
    let k = keep_first(c);
    assert forall|a: int, b: int| 0 <= a < b < k.len() implies lower_seq((#[trigger] k[a]).subtitle) != lower_seq(
        (#[trigger] k[b]).subtitle,
    ) by {
        assert(f(k[a]) != f(k[b]));
    }
}

} // verus!
