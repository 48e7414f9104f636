use kwick::config::{
    apply_scalars, config_dir_from, default_scan_depth, Config, DEFAULT_CONFIG,
};

fn window_size() -> (String, String) {
    (
        toml_edit::Value::from(640.0f64).to_string(),
        toml_edit::Value::from(420.0f64).to_string(),
    )
}

#[test]
fn apply_scalars_keeps_comments_and_tables() {
    // An old config.toml: no scan_chocolatey, and an array of tables last.
    let old_text = "\
# 見出しコメント
hotkey = \"alt+space\"
max_results = 8

# PATH を含めるか
scan_path = false

[[web_searches]]
name = \"Google\"
keyword = \"g\"
url = \"https://example.com/?q={query}\"
";
    let mut config = Config::default();
    config.max_results = 12;
    config.scan_path = true;
    config.scan_chocolatey = true;

    let (width, height) = window_size();
    let out = apply_scalars(old_text, &config, &width, &height).unwrap();

    assert!(out.contains("# 見出しコメント"));
    assert!(out.contains("# PATH を含めるか"));
    assert!(out.contains("max_results = 12"));
    assert!(out.contains("scan_path = true"));
    // A key absent from the old file is added to the root table, i.e. before
    // [[web_searches]] — not swallowed by it.
    let choco = out.find("scan_chocolatey = true").expect("key added");
    assert!(choco < out.find("[[web_searches]]").unwrap());
    // The array of tables survives and still parses back.
    let reparsed: toml::Table = toml::from_str(&out).unwrap();
    assert_eq!(reparsed["web_searches"].as_array().unwrap().len(), 1);
    assert_eq!(reparsed["scan_chocolatey"].as_bool(), Some(true));
    assert_eq!(reparsed["max_results"].as_integer(), Some(12));
}

#[test]
fn apply_scalars_writes_every_setting() {
    let mut config = Config::default();
    config.hotkey = "ctrl+alt+k".to_string();
    config.scan_start_menu = true;
    config.system_commands = false;
    let (width, height) = window_size();
    let out = apply_scalars("", &config, &width, &height).unwrap();
    let t: toml::Table = toml::from_str(&out).unwrap();
    assert_eq!(t["hotkey"].as_str(), Some("ctrl+alt+k"));
    assert_eq!(t["max_results"].as_integer(), Some(8));
    assert_eq!(t["width"].as_float(), Some(640.0));
    assert_eq!(t["height"].as_float(), Some(420.0));
    assert_eq!(t["scan_start_menu"].as_bool(), Some(true));
    assert_eq!(t["scan_path"].as_bool(), Some(false));
    assert_eq!(t["scan_chocolatey"].as_bool(), Some(false));
    assert_eq!(t["system_commands"].as_bool(), Some(false));
}

#[test]
fn apply_scalars_rejects_invalid_toml() {
    let config = Config::default();
    let (width, height) = window_size();
    let err = apply_scalars("hotkey = = 1", &config, &width, &height).unwrap_err();
    assert!(err.starts_with("config.toml を解釈できません: "));
    assert!(err.len() > "config.toml を解釈できません: ".len());
}

#[test]
fn default_config_round_trips_through_apply_scalars() {
    let config = Config::default();
    let (width, height) = window_size();
    let out = apply_scalars(DEFAULT_CONFIG, &config, &width, &height).unwrap();
    assert!(out.contains("# Kwick 設定ファイル"));
    let t: toml::Table = toml::from_str(&out).unwrap();
    assert_eq!(t["web_searches"].as_array().unwrap().len(), 2);
    assert_eq!(t["hotkey"].as_str(), Some("alt+space"));
}

#[test]
fn defaults_match_the_documented_values() {
    let c = Config::default();
    assert_eq!(c.hotkey, "alt+space");
    assert_eq!(c.max_results, 8);
    assert!(!c.scan_start_menu && !c.scan_path && !c.scan_chocolatey);
    assert!(c.system_commands);
    assert!(c.scan_folders.is_empty() && c.commands.is_empty() && c.web_searches.is_empty());
    assert_eq!(default_scan_depth(), 3);
}

#[test]
fn config_dir_is_kwick_below_the_base() {
    assert_eq!(config_dir_from(Some("/home/u/.config")), "/home/u/.config/kwick");
    assert_eq!(config_dir_from(None), "./kwick");
}

#[test]
fn apply_scalars_rejects_a_window_size_that_is_no_toml_value() {
    let config = Config::default();
    let err = apply_scalars("", &config, "wide", "420.0").unwrap_err();
    assert!(err.starts_with("ウィンドウの幅を解釈できません: "));
    let err = apply_scalars("", &config, "640.0", "tall").unwrap_err();
    assert!(err.starts_with("ウィンドウの高さを解釈できません: "));
    let err = apply_scalars("x = = 1", &config, "wide", "tall").unwrap_err();
    assert!(err.starts_with("config.toml を解釈できません: "));
}

#[test]
fn window_size_is_written_as_given() {
    let config = Config::default();
    let out = apply_scalars("width = 1\n", &config, "800.5", "600.0").unwrap();
    let t: toml::Table = toml::from_str(&out).unwrap();
    assert_eq!(t["width"].as_float(), Some(800.5));
    assert_eq!(t["height"].as_float(), Some(600.0));
}

#[test]
fn comments_on_their_own_lines_survive_rewriting() {
    let text = "# top\nhotkey = \"a\" # same line\n# before width\nwidth = 1.5\n\n# before table\n[[commands]]\n# inside\nname = \"x\"\ncmd = \"y\"\n";
    let out = apply_scalars(text, &Config::default(), "640.0", "420.0").unwrap();
    for c in ["# top", "# before width", "# before table", "# inside"] {
        assert!(out.contains(c), "{c} lost");
    }
    assert!(!out.contains("# same line"));
    let t: toml::Table = toml::from_str(&out).unwrap();
    assert_eq!(t["commands"].as_array().unwrap().len(), 1);
    assert_eq!(t["width"].as_float(), Some(640.0));
}

#[test]
fn tables_and_other_entries_keep_their_contents() {
    let text = "extra = [1, 2]\nwhen = 1979-05-27\n[[scan_folders]]\npath = 'D:\\Tools'\ndepth = 2\n[[commands]]\nname = \"a\"\ncmd = \"b\"\n";
    let out = apply_scalars(text, &Config::default(), "640.0", "420.0").unwrap();
    let before: toml::Table = toml::from_str(text).unwrap();
    let after: toml::Table = toml::from_str(&out).unwrap();
    for k in ["extra", "when", "scan_folders", "commands"] {
        assert_eq!(before[k], after[k], "{k} changed");
    }
}
