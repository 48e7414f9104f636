use kwick::config::ScanFolder;
use kwick::providers::folders::{self, walk_depth, FolderEntry};
use kwick::providers::registered::{self, parse_executable_path, RegisteredApp};
use kwick::providers::shellfolders::{self, candidates, ShellFolderBases};
use kwick::providers::{apps, pathbin, Action, Item};

fn folder(path: &std::path::Path, depth: usize, exts: Option<Vec<String>>) -> ScanFolder {
    ScanFolder {
        path: path.display().to_string(),
        depth,
        extensions: exts,
    }
}

/// A folder tree as a walk lists it: each path with its depth below the root
/// (the root itself at depth 0).
fn tree(root: &str) -> Vec<(String, usize)> {
    vec![
        (root.to_string(), 0),
        (format!("{root}/note.txt"), 1),
        (format!("{root}/sub"), 1),
        (format!("{root}/sub/deep"), 2),
        (format!("{root}/sub/deep/hidden.exe"), 3),
        (format!("{root}/sub/script.bat"), 2),
        (format!("{root}/tool.exe"), 1),
    ]
}

/// Walks each folder as the launcher does (down to `walk_depth`) and hands the
/// files to `folders::scan`.
fn scan_folders(folders: &[ScanFolder]) -> Vec<Item> {
    let mut entries = Vec::new();
    for (i, f) in folders.iter().enumerate() {
        for (path, depth) in tree(&f.path) {
            if depth <= walk_depth(f) {
                entries.push(FolderEntry { folder: i, path });
            }
        }
    }
    folders::scan(folders, &entries)
}

#[test]
fn scans_default_extensions_up_to_depth() {
    let dir = std::path::Path::new("/tmp/kwick-test");

    // depth 2 = root + sub; deep/ is excluded, .txt is not a default ext.
    let items = scan_folders(&[folder(dir, 2, None)]);
    let mut titles: Vec<&str> = items.iter().map(|i| i.title.as_str()).collect();
    titles.sort();
    assert_eq!(titles, ["script", "tool"]);

    // Custom extension filter only picks .txt.
    let items = scan_folders(&[folder(dir, 1, Some(vec!["txt".into()]))]);
    assert_eq!(items.len(), 1);
    assert_eq!(items[0].title, "note");
    assert_eq!(items[0].rank_boost, 40);

    // Depth 0 still lists the folder's own files.
    let items = scan_folders(&[folder(dir, 0, Some(vec!["EXE".into()]))]);
    assert_eq!(items.len(), 1);
    assert_eq!(items[0].title, "tool");
}

#[test]
fn parses_quoted_path_with_arguments() {
    let exe = "/bin/sh";
    let path = parse_executable_path(&format!(r#""{}" --flag"#, exe));
    assert_eq!(path, exe);
    assert!(std::path::Path::new(&path).is_file());
}

fn shell_folder_bases() -> ShellFolderBases {
    let s = |p: Option<std::path::PathBuf>| p.map(|p| p.display().to_string());
    ShellFolderBases {
        home: s(dirs::home_dir()),
        desktop: s(dirs::desktop_dir()),
        download: s(dirs::download_dir()),
        document: s(dirs::document_dir()),
        picture: s(dirs::picture_dir()),
        video: s(dirs::video_dir()),
        audio: s(dirs::audio_dir()),
        onedrive: None,
        appdata: None,
        local_appdata: None,
        temp: Some("/tmp".to_string()),
        program_files: None,
        program_files_x86: None,
        program_data: None,
        public: None,
        windir: None,
    }
}

#[test]
fn lists_existing_folders_without_duplicates() {
    let cands = candidates(&shell_folder_bases());
    let is_dir: Vec<bool> = cands
        .iter()
        .map(|c| c.path.as_ref().map_or(false, |p| std::path::Path::new(p).is_dir()))
        .collect();
    let items = shellfolders::scan(&cands, &is_dir);

    // TEMP and the user profile exist on any machine the app runs on.
    let temp = items.iter().find(|i| i.title == "Temp").expect("Temp");
    assert!(matches!(&temp.action, Action::Open(p) if p == &temp.subtitle));
    assert!(temp.key.contains("tmp"));
    assert_eq!(temp.rank_boost, 30);
    assert!(items.iter().any(|i| i.title == "ホーム"));

    let mut paths: Vec<String> = items
        .iter()
        .map(|i| i.subtitle.to_ascii_lowercase())
        .collect();
    let count = paths.len();
    paths.sort();
    paths.dedup();
    assert_eq!(paths.len(), count, "同じフォルダが二重に出ている");
}

#[test]
fn same_folder_under_two_names_is_listed_once() {
    let mut b = shell_folder_bases();
    b.program_files = Some("/X/Prog".to_string());
    b.program_files_x86 = Some("/x/prog".to_string());
    let cands = candidates(&b);
    let is_dir: Vec<bool> = cands
        .iter()
        .map(|c| matches!(&c.path, Some(p) if p.eq_ignore_ascii_case("/x/prog")))
        .collect();
    let items = shellfolders::scan(&cands, &is_dir);
    assert_eq!(items.len(), 1);
    assert_eq!(items[0].title, "Program Files");
    assert_eq!(items[0].key, "Program Files program files");
}

#[test]
fn candidates_follow_the_documented_order() {
    let cands = candidates(&shell_folder_bases());
    assert_eq!(cands.len(), 21);
    assert_eq!(cands[0].title, "ホーム");
    assert_eq!(cands[12].title, "Temp");
    assert_eq!(cands[19].title, "Windows");
    assert_eq!(cands[19].path.as_deref(), Some("C:\\Windows"));
    assert_eq!(cands[20].title, "System32");
}

#[test]
fn unquoted_values_are_cut_after_the_first_known_extension() {
    assert_eq!(parse_executable_path("  C:\\App\\app.EXE /min "), "C:\\App\\app.EXE");
    assert_eq!(parse_executable_path("C:\\a.bat.exe x"), "C:\\a.bat.exe");
    assert_eq!(parse_executable_path("C:\\run.cmd -q"), "C:\\run.cmd");
    assert_eq!(parse_executable_path("\"C:\\Prog Files\\b.exe\" --x"), "C:\\Prog Files\\b.exe");
    assert_eq!(parse_executable_path(" plain "), "plain");
}

#[test]
fn registered_apps_prefer_friendly_names() {
    let apps = [
        RegisteredApp {
            path: "/opt/tools/Foo.exe".to_string(),
            friendly: Some("Foo Editor".to_string()),
            subkey: "foo.exe".to_string(),
        },
        RegisteredApp {
            path: "/opt/tools/foo.EXE".to_string(),
            friendly: None,
            subkey: "other.exe".to_string(),
        },
        RegisteredApp {
            path: "/opt/tools/bar.exe".to_string(),
            friendly: Some("  ".to_string()),
            subkey: "bar.exe".to_string(),
        },
    ];
    let items = registered::scan(&apps);
    assert_eq!(items.len(), 2);
    assert_eq!(items[0].title, "Foo Editor");
    assert_eq!(items[0].key, "Foo Editor Foo foo.exe");
    assert_eq!(items[0].rank_boost, 35);
    assert_eq!(items[1].title, "bar");
    assert!(matches!(&items[1].action, Action::Open(p) if p == "/opt/tools/bar.exe"));
}

#[test]
fn path_executables_keep_the_first_of_each_path() {
    let entries = vec![
        "/bin/tool.exe".to_string(),
        "/bin/readme.txt".to_string(),
        "/bin/TOOL.EXE".to_string(),
        "/bin/run.cmd".to_string(),
    ];
    let items = pathbin::scan(&entries);
    let titles: Vec<&str> = items.iter().map(|i| i.title.as_str()).collect();
    assert_eq!(titles, ["tool", "run"]);
    let choco = pathbin::scan_chocolatey(&entries);
    assert_eq!(choco.len(), 2);
    assert_eq!(choco[0].subtitle, "Chocolatey - /bin/tool.exe");
    assert_eq!(choco[0].rank_boost, 40);
}

#[test]
fn chocolatey_bin_falls_back_to_program_data() {
    assert_eq!(pathbin::chocolatey_bin(Some("/choco"), Some("/pd")), "/choco/bin");
    assert_eq!(pathbin::chocolatey_bin(None, Some("/pd")), "/pd/chocolatey/bin");
    assert_eq!(pathbin::chocolatey_bin(None, None), "C:\\ProgramData\\chocolatey/bin");
}

#[test]
fn start_menu_shortcuts_become_apps() {
    let roots = apps::roots(Some("/a"), None);
    assert_eq!(roots.len(), 1);
    let items = apps::scan(&[
        "/sm/Editor.lnk".to_string(),
        "/sm/editor.LNK".to_string(),
        "/sm/Site.url".to_string(),
        "/sm/readme.txt".to_string(),
    ]);
    let titles: Vec<&str> = items.iter().map(|i| i.title.as_str()).collect();
    assert_eq!(titles, ["Editor", "Site"]);
    assert_eq!(items[0].subtitle, "アプリ");
}
