use kwick::config::{Config, CustomCommand, WebSearch};
use kwick::history::History;
use kwick::icons::{all_alpha_zero, bgra_to_rgba};
use kwick::launcher::{
    clamp_selection, fallback_initial, needs_rescan, on_focus, plan_execution, select_next,
    select_previous, Execution, SearchIndex,
};
use kwick::matcher::{select_top, Ranker};
use kwick::plugins::{is_plugin_file, plugin_items, PluginResult};
use kwick::providers::systools::{self, checked_paths, power_items, CHECKED_COUNT};
use kwick::providers::{builtin_items_in, config_items, scan_indexed, Action, Item, ScannedSources};
use kwick::search::search;
use kwick::startup::{reg_args, startup_command};
use kwick::tray::{icon_rgba, tray_action, TrayAction, TrayFlags};
use kwick::winctl::{NativeCall, WindowCtl};

fn item(title: &str) -> Item {
    Item::new(title.to_string(), String::new(), Action::Open(format!("/x/{title}")))
}

fn titles(items: &[Item]) -> Vec<&str> {
    items.iter().map(|i| i.title.as_str()).collect()
}

#[test]
fn history_counts_bonus_and_removal() {
    let mut h = History::new();
    assert_eq!(h.count("Editor"), 0);
    h.bump("Editor");
    h.bump("Editor");
    h.bump("Shell");
    assert_eq!(h.count("Editor"), 2);
    assert_eq!(h.count("Shell"), 1);
    assert_eq!(h.bonus("Editor"), 30);
    h.remove("Editor");
    assert_eq!(h.count("Editor"), 0);
    assert_eq!(h.count("Shell"), 1);
}

#[test]
fn history_bonus_is_capped_at_twenty_launches() {
    let h = History::from_entries(vec![
        ("A".to_string(), 19),
        ("B".to_string(), 20),
        ("C".to_string(), 500),
        ("A".to_string(), 3),
    ]);
    assert_eq!(h.count("A"), 3);
    assert_eq!(h.bonus("A"), 45);
    assert_eq!(h.bonus("B"), 300);
    assert_eq!(h.bonus("C"), 300);
    let mut pairs = h.entries();
    pairs.sort();
    assert_eq!(
        pairs,
        vec![("A".to_string(), 3), ("B".to_string(), 20), ("C".to_string(), 500)]
    );
}

#[test]
fn select_top_orders_by_total_then_index() {
    let totals = [Some(3), None, Some(7), Some(3), Some(9)];
    assert_eq!(select_top(&totals, 3), vec![4, 2, 0]);
    assert_eq!(select_top(&totals, 10), vec![4, 2, 0, 3]);
    assert_eq!(select_top(&totals, 0), Vec::<usize>::new());
}

#[test]
fn ranker_lists_only_matches_and_applies_bonus() {
    let items = vec![item("Notepad"), item("Paint"), item("Note Taker")];
    let mut ranker = Ranker::new();
    let r = ranker.rank(&items, "zzzq", 5, &[0, 0, 0]);
    assert!(r.is_empty());
    let r = ranker.rank(&items, "paint", 5, &[0, 0, 0]);
    assert_eq!(r, vec![1]);
    // A large bonus puts the weaker match first.
    let plain = ranker.rank(&items, "note", 5, &[0, 0, 0]);
    assert_eq!(plain.len(), 2);
    let boosted = ranker.rank(&items, "note", 5, &[0, 0, 10_000]);
    assert_eq!(boosted[0], 2);
    let capped = ranker.rank(&items, "note", 1, &[0, 0, 0]);
    assert_eq!(capped.len(), 1);
}

#[test]
fn empty_query_lists_most_used_items() {
    let items = vec![item("A"), item("B"), item("C"), item("D")];
    let h = History::from_entries(vec![
        ("C".to_string(), 5),
        ("A".to_string(), 2),
        ("D".to_string(), 5),
    ]);
    let mut ranker = Ranker::new();
    let r = search("   ", &items, &h, 2, &[], Vec::new(), &mut ranker);
    assert_eq!(titles(&r), ["C", "D"]);
    let r = search("", &items, &h, 8, &[], Vec::new(), &mut ranker);
    assert_eq!(titles(&r), ["C", "D", "A"]);
}

#[test]
fn web_search_items_come_first_with_encoded_query() {
    let items = vec![item("Google Chrome"), item("Git Bash")];
    let searches = vec![WebSearch {
        name: "Google".to_string(),
        keyword: "g".to_string(),
        url: "https://www.google.com/search?q={query}".to_string(),
    }];
    let mut ranker = Ranker::new();
    let h = History::new();
    let r = search(" g rust lang ", &items, &h, 8, &searches, Vec::new(), &mut ranker);
    assert_eq!(r[0].title, "Google: rust lang");
    assert_eq!(r[0].subtitle, "https://www.google.com/search?q=rust%20lang");
    assert!(matches!(&r[0].action, Action::Url(u) if u == "https://www.google.com/search?q=rust%20lang"));
    // "g" without terms is no web search.
    let r = search("g", &items, &h, 8, &searches, Vec::new(), &mut ranker);
    assert!(r.iter().all(|i| !i.title.starts_with("Google:")));
}

#[test]
fn plugin_results_precede_ranked_items_and_shrink_the_rest() {
    let items = vec![item("alpha"), item("alpine"), item("alps")];
    let lua = vec![item("p1"), item("p2"), item("p3")];
    let mut ranker = Ranker::new();
    let h = History::new();
    let r = search("al", &items, &h, 4, &[], lua, &mut ranker);
    // Three plugin items, then at most 4 - 2 ranked items.
    assert_eq!(r.len(), 5);
    assert_eq!(titles(&r[..3]), ["p1", "p2", "p3"]);
}

#[test]
fn plugin_results_become_items_with_callback_positions() {
    let results = vec![
        PluginResult {
            title: Some("3".to_string()),
            subtitle: Some("1+2 =".to_string()),
            has_run: true,
            cmd: None,
            args: None,
            url: None,
        },
        PluginResult {
            title: None,
            subtitle: None,
            has_run: true,
            cmd: None,
            args: None,
            url: None,
        },
        PluginResult {
            title: Some("pad".to_string()),
            subtitle: None,
            has_run: false,
            cmd: Some("notepad".to_string()),
            args: Some("a.txt".to_string()),
            url: None,
        },
        PluginResult {
            title: Some("site".to_string()),
            subtitle: None,
            has_run: false,
            cmd: None,
            args: None,
            url: Some("https://e.com".to_string()),
        },
        PluginResult {
            title: Some("nothing".to_string()),
            subtitle: None,
            has_run: false,
            cmd: None,
            args: None,
            url: None,
        },
        PluginResult {
            title: Some("again".to_string()),
            subtitle: None,
            has_run: true,
            cmd: None,
            args: None,
            url: None,
        },
    ];
    let (items, runs) = plugin_items(&results);
    assert_eq!(titles(&items), ["3", "pad", "site", "again"]);
    assert_eq!(runs, vec![0, 5]);
    assert!(matches!(items[0].action, Action::Lua(0)));
    assert!(matches!(items[3].action, Action::Lua(1)));
    assert!(matches!(&items[1].action, Action::Exec { cmd, args: Some(a) } if cmd == "notepad" && a == "a.txt"));
    assert_eq!(items[0].subtitle, "1+2 =");
    assert_eq!(items[1].subtitle, "");
}

#[test]
fn selection_wraps_in_both_directions() {
    assert_eq!(select_next(0, 3), 1);
    assert_eq!(select_next(2, 3), 0);
    assert_eq!(select_previous(0, 3), 2);
    assert_eq!(select_previous(2, 3), 1);
    assert_eq!(select_previous(select_next(1, 3), 3), 1);
    assert_eq!(select_next(5, 3), 0);
    assert_eq!(select_previous(4, 3), 0);
    assert_eq!(select_next(0, 1), 0);
    assert_eq!(select_previous(0, 1), 0);
    assert_eq!(clamp_selection(5, 3), 2);
    assert_eq!(clamp_selection(1, 3), 1);
    assert_eq!(clamp_selection(4, 0), 0);
}

#[test]
fn execution_plan_follows_the_action() {
    assert_eq!(plan_execution(&Action::Reload), Execution::Rescan);
    assert_eq!(plan_execution(&Action::Quit), Execution::Quit);
    assert_eq!(
        plan_execution(&Action::Open("x".to_string())),
        Execution::Launch { record_history: true }
    );
    assert_eq!(
        plan_execution(&Action::Url("x".to_string())),
        Execution::Launch { record_history: false }
    );
    assert_eq!(
        plan_execution(&Action::Lua(0)),
        Execution::Launch { record_history: false }
    );
    assert_eq!(
        plan_execution(&Action::OpenConfig),
        Execution::Launch { record_history: true }
    );
}

#[test]
fn focus_loss_after_focus_hides() {
    assert_eq!(on_focus(false, false), (false, false));
    assert_eq!(on_focus(false, true), (true, false));
    assert_eq!(on_focus(true, true), (true, false));
    assert_eq!(on_focus(true, false), (true, true));
    let mut flags = TrayFlags::new();
    assert!(!flags.take_reload());
    flags.reload = true;
    assert!(flags.take_reload());
    assert!(!flags.take_reload());
}

#[test]
fn fallback_initial_is_upper_case_first_letter() {
    assert_eq!(fallback_initial("notepad"), "N");
    assert_eq!(fallback_initial("ß"), "SS");
    assert_eq!(fallback_initial(""), "?");
}

#[test]
fn reload_keeps_scanned_items_and_replaces_commands() {
    let mut index = SearchIndex::new(vec![item("a"), item("b")], vec![item("c1")]);
    assert_eq!(titles(index.items()), ["a", "b", "c1"]);
    index.replace_config_items(vec![item("c2"), item("c3")]);
    assert_eq!(titles(index.items()), ["a", "b", "c2", "c3"]);
    index.replace_config_items(Vec::new());
    assert_eq!(titles(index.items()), ["a", "b"]);
}

#[test]
fn rescan_only_when_scan_settings_change() {
    let a = Config::default();
    let mut b = Config::default();
    b.max_results = 20;
    b.hotkey = "ctrl+k".to_string();
    assert!(!needs_rescan(&a, &b));
    b.scan_path = true;
    assert!(needs_rescan(&a, &b));
    let mut c = Config::default();
    c.scan_folders.push(kwick::config::ScanFolder {
        path: "/t".to_string(),
        depth: 3,
        extensions: None,
    });
    assert!(needs_rescan(&a, &c));
}

#[test]
fn config_commands_become_items() {
    let mut c = Config::default();
    c.commands.push(CustomCommand {
        name: "Shutdown PC".to_string(),
        cmd: "shutdown".to_string(),
        args: Some("/s /t 0".to_string()),
        keyword: Some("sd".to_string()),
    });
    c.commands.push(CustomCommand {
        name: "Top".to_string(),
        cmd: "htop".to_string(),
        args: None,
        keyword: None,
    });
    let items = config_items(&c);
    assert_eq!(items.len(), 2);
    assert_eq!(items[0].subtitle, "shutdown /s /t 0");
    assert_eq!(items[0].key, "Shutdown PC sd");
    assert_eq!(items[1].subtitle, "htop");
    assert_eq!(items[1].key, "Top");
}

#[test]
fn builtin_commands_end_with_quit() {
    let items = builtin_items_in("/cfg/kwick");
    assert_eq!(items.len(), 5);
    assert!(matches!(&items[0].action, Action::Open(p) if p == "/cfg/kwick"));
    assert!(matches!(items[1].action, Action::Reload));
    assert!(matches!(items[4].action, Action::Quit));
}

#[test]
fn indexed_items_respect_the_source_switches() {
    let mut config = Config::default();
    config.scan_path = false;
    config.system_commands = false;
    let found = ScannedSources {
        start_menu: vec![item("menu")],
        registered: vec![item("reg")],
        path: vec![item("pathexe")],
        chocolatey: vec![item("choco")],
        folders: vec![item("folder")],
        system_tools: vec![item("tool")],
        power: vec![item("power")],
        shell_folders: vec![item("shell")],
    };
    let items = scan_indexed(&config, found);
    let t = titles(&items);
    assert_eq!(&t[..4], ["reg", "folder", "tool", "shell"]);
    assert_eq!(t.len(), 4 + 5);
    assert_eq!(t[t.len() - 1], "Kwick: Quit");
}

#[test]
fn curated_tools_only_list_existing_files() {
    assert_eq!(checked_paths(Some("/w")).len(), CHECKED_COUNT);
    let mut present = vec![false; CHECKED_COUNT];
    present[1] = true;
    present[CHECKED_COUNT - 1] = true;
    let items = systools::scan(Some("/w"), &present);
    assert_eq!(
        titles(&items),
        ["タスク マネージャー", "システムのプロパティ", "環境変数の編集", "設定"]
    );
    assert_eq!(items[0].subtitle, "/w/System32/taskmgr.exe");
    assert_eq!(items[0].key, "タスク マネージャー task manager taskmgr");
    assert_eq!(items[0].rank_boost, 40);
    assert!(matches!(&items[1].action, Action::Exec { cmd, args: Some(a) } if cmd == "/w/System32/control.exe" && a == "sysdm.cpl"));
    assert_eq!(items[1].icon_path.as_deref(), Some("/w/System32/sysdm.cpl"));
}

#[test]
fn power_commands_use_shutdown_or_rundll32() {
    let items = power_items(Some("/w"));
    assert_eq!(items.len(), 6);
    assert!(matches!(&items[0].action, Action::Exec { cmd, args: Some(a) } if cmd == "/w/System32/shutdown.exe" && a == "/s /t 0"));
    assert!(matches!(&items[5].action, Action::Exec { cmd, args: Some(a) } if cmd == "/w/System32/rundll32.exe" && a == "user32.dll,LockWorkStation"));
    assert_eq!(items[5].key, "ロック lock workstation");
}

#[test]
fn window_toggle_round_trip() {
    let mut w = WindowCtl::new(42, false);
    assert!(!w.is_visible());
    assert_eq!(w.toggle(1_000), NativeCall::Show);
    assert!(w.is_visible());
    assert!(w.is_activating(1_500));
    assert!(!w.is_activating(1_750));
    assert!(w.retry_show(1_100, true, false, false));
    assert!(!w.retry_show(1_100, true, false, true));
    assert_eq!(w.toggle(2_000), NativeCall::Hide);
    assert!(!w.is_visible());
    assert!(!w.is_activating(2_000));
    assert!(w.enforce_hidden(true));
    assert!(!w.enforce_hidden(false));
    let mut none = WindowCtl::new(0, false);
    assert_eq!(none.show(5), NativeCall::Nothing);
    assert_eq!(none.hide_window(), NativeCall::Nothing);
    assert!(!none.is_visible());
}

#[test]
fn bgra_pixels_become_rgba_with_mask_alpha() {
    let mut px = vec![1, 2, 3, 0, 10, 20, 30, 0, 99];
    assert!(all_alpha_zero(&px));
    let mask = vec![0, 0, 0, 0, 255, 255, 255, 255];
    bgra_to_rgba(&mut px, Some(&mask));
    assert_eq!(px, vec![3, 2, 1, 255, 30, 20, 10, 0, 99]);
    let mut px = vec![1, 2, 3, 77];
    assert!(!all_alpha_zero(&px));
    bgra_to_rgba(&mut px, None);
    assert_eq!(px, vec![3, 2, 1, 77]);
}

#[test]
fn fallback_icon_is_a_rounded_blue_square_with_white_k() {
    let rgba = icon_rgba();
    assert_eq!(rgba.len(), 32 * 32 * 4);
    let px = |x: usize, y: usize| &rgba[(y * 32 + x) * 4..(y * 32 + x) * 4 + 4];
    assert_eq!(px(0, 0), [0, 0, 0, 0]);
    assert_eq!(px(16, 1), [56, 120, 240, 255]);
    assert_eq!(px(6, 4), [255, 255, 255, 255]);
    assert_eq!(px(16, 16), [56, 120, 240, 255]);
}

#[test]
fn startup_registration_arguments() {
    assert_eq!(startup_command("C:\\k.exe"), "\"C:\\k.exe\" --hidden");
    assert_eq!(reg_args(true, None), None);
    let add = reg_args(true, Some("C:\\k.exe")).unwrap();
    assert_eq!(add[0], "add");
    assert_eq!(add[7], "\"C:\\k.exe\" --hidden");
    assert_eq!(add.len(), 9);
    let del = reg_args(false, None).unwrap();
    assert_eq!(
        del,
        vec![
            "delete",
            "HKCU\\Software\\Microsoft\\Windows\\CurrentVersion\\Run",
            "/v",
            "Kwick",
            "/f"
        ]
    );
}

#[test]
fn tray_menu_ids_map_to_actions() {
    assert_eq!(tray_action("toggle"), TrayAction::Toggle);
    assert_eq!(tray_action("settings"), TrayAction::OpenSettings);
    assert_eq!(tray_action("reload"), TrayAction::Reload);
    assert_eq!(tray_action("startup"), TrayAction::ToggleStartup);
    assert_eq!(tray_action("quit"), TrayAction::Quit);
    assert_eq!(tray_action("Quit"), TrayAction::Nothing);
}

#[test]
fn fallback_icon_transparency_is_symmetric() {
    let rgba = icon_rgba();
    let alpha = |x: usize, y: usize| rgba[(y * 32 + x) * 4 + 3];
    for y in 0..32 {
        for x in 0..32 {
            assert_eq!(alpha(x, y), alpha(31 - x, y));
            assert_eq!(alpha(x, y), alpha(x, 31 - y));
        }
    }
}

#[test]
fn activation_ends_with_hide_and_after_its_time() {
    let mut w = WindowCtl::new(7, false);
    assert!(!w.is_activating(0));
    w.show(100);
    assert!(w.is_activating(849));
    assert!(!w.is_activating(850));
    w.hide_window();
    assert!(!w.is_activating(101));
}

#[test]
fn whitespace_of_every_kind_is_trimmed_before_web_search() {
    let searches = vec![WebSearch {
        name: "G".to_string(),
        keyword: "g".to_string(),
        url: "https://e.com/?q={query}".to_string(),
    }];
    let mut ranker = Ranker::new();
    let r = search("\u{3000}g caf\u{e9}~\t", &[], &History::new(), 8, &searches, Vec::new(), &mut ranker);
    assert_eq!(r[0].subtitle, "https://e.com/?q=caf%C3%A9~");
}

#[test]
fn history_text_round_trips() {
    let mut h = History::new();
    h.bump("Editor");
    h.bump("Editor");
    h.bump("名前 \"quoted\"");
    let text = h.to_text();
    let back = History::from_text(Some(&text));
    assert_eq!(back.count("Editor"), 2);
    assert_eq!(back.count("名前 \"quoted\""), 1);
    assert_eq!(back.count("Shell"), 0);
    assert_eq!(History::from_text(Some(&History::new().to_text())).entries().len(), 0);
}

#[test]
fn unreadable_history_text_gives_an_empty_history() {
    assert!(History::from_text(None).entries().is_empty());
    assert!(History::from_text(Some("a = = 1")).entries().is_empty());
    assert!(History::from_text(Some("a = -1")).entries().is_empty());
    let h = History::from_text(Some("Editor = 3\n\"Git Bash\" = 7\n"));
    assert_eq!(h.count("Editor"), 3);
    assert_eq!(h.count("Git Bash"), 7);
}

#[test]
fn only_lua_files_are_plugins() {
    assert!(is_plugin_file("/cfg/plugins/calc.lua"));
    assert!(!is_plugin_file("/cfg/plugins/calc.LUA"));
    assert!(!is_plugin_file("/cfg/plugins/readme.txt"));
    assert!(!is_plugin_file("/cfg/plugins/lua"));
}
