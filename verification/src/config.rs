//! Settings read from config.toml, their defaults, and writing the scalar
//! settings back into an existing config.toml without disturbing the rest.
use vstd::prelude::*;
use toml_edit::{value, DocumentMut, Item as TomlItem};
use crate::text::concat;

verus! {

/// The config.toml written on first start.
pub const DEFAULT_CONFIG: &'static str = r#"# Kwick 設定ファイル
# ウィンドウを表示するたびに再読み込みされます。
# 主な項目は "Kwick: Settings" の設定画面からも変更できます
# (このファイルのコメントは保持されます)。

hotkey = "alt+space"
max_results = 8

# スタートメニューのアプリ (.lnk/.url) を検索対象に含めるか。
scan_start_menu = false

# PATH 上の実行ファイル (.exe/.bat/.cmd/.com) を検索対象に含めるか。
# true にすると CLI ツールなども起動できますが、システムの exe が大量に候補に入ります。
scan_path = false

# Chocolatey の shim フォルダ (%ChocolateyInstall%\bin、既定では
# C:\ProgramData\chocolatey\bin) を検索対象に含めるか。
# scan_path とは独立しているので、PATH 全体を取り込まずに choco で入れた
# ツールだけを候補に追加できます。
scan_chocolatey = false

# よく使う Windows ツール(リモートデスクトップ、タスクマネージャー等)は常に検索対象です。

# 電源系コマンド(シャットダウン、再起動、スリープ、休止状態、サインアウト、ロック)を
# 検索対象に含めるか。
system_commands = true

# --- スキャンフォルダ(任意のフォルダを検索対象に追加) ---
# path 直下から depth 階層まで走査し、extensions の拡張子を候補に追加します。
# [[scan_folders]]
# path = 'D:\Tools'
# depth = 3                              # 省略時は 3(1 = 直下のみ)
# extensions = ["exe", "lnk", "bat"]     # 省略時は exe/lnk/bat/cmd/url

# --- カスタムコマンド(コード不要) ---
# [[commands]]
# name = "Shutdown PC"
# cmd = "shutdown"
# args = "/s /t 0"
# keyword = "sd"

# --- Web 検索("キーワード + スペース + 検索語" で起動) ---
[[web_searches]]
name = "Google"
keyword = "g"
url = "https://www.google.com/search?q={query}"

[[web_searches]]
name = "YouTube"
keyword = "yt"
url = "https://www.youtube.com/results?search_query={query}"
"#;

/// The sample calculator plugin (plugins/calc.lua) written on first start.
pub const CALC_PLUGIN: &'static str = r#"-- 電卓プラグイン(サンプル)
-- 数式を入力すると結果を表示し、Enter でクリップボードにコピーします。
kwick.register{
    name = "calc",
    on_query = function(q)
        local expr = q:match("^=%s*(.+)$")
        if not expr and q:match("^[%d%.%s%+%-%*/%%%(%)%^]+$") and q:match("[%+%-%*/%%%^]") then
            expr = q
        end
        if not expr then return {} end
        local f = load("return " .. expr, "calc", "t", { math = math })
        if not f then return {} end
        local ok, result = pcall(f)
        if not ok or type(result) ~= "number" then return {} end
        return {
            {
                title = tostring(result),
                subtitle = expr .. " =  (Enter でコピー)",
                run = function() kwick.copy(tostring(result)) end,
            },
        }
    end,
}
"#;

/// The settings of config.toml other than the window size (which is a float
/// and stays with the caller).
pub struct Config {
    pub hotkey: String,
    pub max_results: usize,
    pub scan_start_menu: bool,
    pub scan_path: bool,
    pub scan_chocolatey: bool,
    pub system_commands: bool,
    pub scan_folders: Vec<ScanFolder>,
    pub commands: Vec<CustomCommand>,
    pub web_searches: Vec<WebSearch>,
}

impl Default for Config {
    fn default() -> (r: Self)
        ensures
            r.hotkey@ == "alt+space"@,
            r.max_results == 8,
            !r.scan_start_menu,
            !r.scan_path,
            !r.scan_chocolatey,
            r.system_commands,
            r.scan_folders@.len() == 0,
            r.commands@.len() == 0,
            r.web_searches@.len() == 0,
    {
        Config {
            hotkey: "alt+space".to_owned(),
            max_results: 8,
            scan_start_menu: false,
            scan_path: false,
            scan_chocolatey: false,
            system_commands: true,
            scan_folders: Vec::new(),
            commands: Vec::new(),
            web_searches: Vec::new(),
        }
    }
}

/// A folder whose files are added to the index.
pub struct ScanFolder {
    pub path: String,
    /// 何階層まで潜るか(1 = 直下のみ)。省略時は 3。
    pub depth: usize,
    /// 対象拡張子(小文字・ドットなし)。省略時は exe/lnk/bat/cmd/url。
    pub extensions: Option<Vec<String>>,
}

/// The scan depth of a folder entry that gives none.
pub fn default_scan_depth() -> (r: usize)
    ensures
        r == 3,
{
    3
}

/// A command defined in config.toml.
pub struct CustomCommand {
    pub name: String,
    pub cmd: String,
    pub args: Option<String>,
    pub keyword: Option<String>,
}

/// A web search started by "keyword + space + query".
pub struct WebSearch {
    pub name: String,
    pub keyword: String,
    pub url: String,
}

/// std's `Path::join` of `base` and `rel`, shown as a string.
pub uninterp spec fn joined_path(base: Seq<char>, rel: Seq<char>) -> Seq<char>;

/// `Path::new(base).join(rel).display().to_string()`.
#[verifier::external_body]
pub(crate) fn path_join(base: &str, rel: &str) -> (r: String)
    ensures
        r@ == joined_path(base@, rel@),
{
    std::path::Path::new(base).join(rel).display().to_string()
}

/// `dirs::config_dir()`, shown as a string. It depends on the user's
/// environment, so nothing is stated of it.
#[verifier::external_body]
fn user_config_dir() -> Option<String> {
    dirs::config_dir().map(|p| p.display().to_string())
}

/// Kwick's folder inside the user's configuration folder `base` (the current
/// folder when there is none).
pub open spec fn config_dir_of(base: Option<Seq<char>>) -> Seq<char> {
    joined_path(
        match base {
            Some(b) => b,
            None => "."@,
        },
        "kwick"@,
    )
}

/// Kwick's folder inside the configuration folder `base`.
pub fn config_dir_from(base: Option<&str>) -> (r: String)
    ensures
        r@ == config_dir_of(
            match base {
                Some(b) => Some(b@),
                None => None,
            },
        ),
{
    match base {
        Some(b) => path_join(b, "kwick"),
        None => path_join(".", "kwick"),
    }
}

/// %APPDATA%\kwick (or the platform's equivalent).
pub fn config_dir() -> (r: String)
    ensures
        exists|base: Option<Seq<char>>| r@ == #[trigger] config_dir_of(base),
{
    let base = user_config_dir();
    match &base {
        Some(b) => config_dir_from(Some(b.as_str())),
        None => config_dir_from(None),
    }
}

/// The folder that holds the Lua plugins.
pub fn plugin_dir() -> (r: String)
    ensures
        exists|base: Option<Seq<char>>| r@ == joined_path(#[trigger] config_dir_of(base), "plugins"@),
{
    let dir = config_dir();
    path_join(dir.as_str(), "plugins")
}

/// A TOML value as the model of a document records it, with the whole
/// contents of arrays and tables.
pub enum TomlData {
    Str(Seq<char>),
    Int(int),
    /// A float, by the bit pattern of the parsed 64-bit float.
    Float(u64),
    Bool(bool),
    /// A date-time, by its text as toml_datetime writes it.
    Datetime(Seq<char>),
    /// An array (inline, or an array of tables), item by item.
    Array(Seq<TomlData>),
    /// A table (inline, standard or dotted), entry by entry.
    Table(Map<Seq<char>, TomlData>),
}

/// A scalar written into config.toml.
pub enum TomlValue {
    Str(String),
    Int(i64),
    Bool(bool),
}

impl TomlValue {
    pub open spec fn model(self) -> TomlData {
        match self {
            TomlValue::Str(s) => TomlData::Str(s@),
            TomlValue::Int(i) => TomlData::Int(i as int),
            TomlValue::Bool(b) => TomlData::Bool(b),
        }
    }
}

#[verifier::external_type_specification]
#[verifier::external_body]
pub struct ExDocumentMut(DocumentMut);

/// The root-table entries of the TOML document `text` as toml_edit parses it,
/// each with its whole value, or `None` when toml_edit rejects the text.
pub uninterp spec fn toml_root(text: Seq<char>) -> Option<Map<Seq<char>, TomlData>>;

/// The message (`Display`) of toml_edit's parse error for `text`.
pub uninterp spec fn toml_error_message(text: Seq<char>) -> Seq<char>;

/// What toml_edit makes of `text` as a single TOML value (`Value::from_str`),
/// or `None` when it rejects the text.
pub uninterp spec fn toml_value(text: Seq<char>) -> Option<TomlData>;

/// The message (`Display`) of toml_edit's error for `text` as a single value.
pub uninterp spec fn toml_value_error(text: Seq<char>) -> Seq<char>;

/// The root-table entries that a toml_edit document holds, each with its
/// whole value.
pub uninterp spec fn document_root(doc: DocumentMut) -> Map<Seq<char>, TomlData>;

/// The comments of `text` that stand on lines of their own (nothing but
/// whitespace before them on their line), as toml_edit reads the text.
pub uninterp spec fn toml_comments(text: Seq<char>) -> Set<Seq<char>>;

/// The comments a toml_edit document holds that print on lines of their own.
pub uninterp spec fn document_comments(doc: DocumentMut) -> Set<Seq<char>>;

/// Setting root entry `key` keeps every comment on a line of its own: the
/// entry is absent, or a single scalar (string, integer, boolean or float),
/// whose line keeps its key and the comments before it. (An array or table
/// there could hold comments of its own, which a new value would drop.)
pub open spec fn replaceable(root: Map<Seq<char>, TomlData>, key: Seq<char>) -> bool {
    root.contains_key(key) ==> !(root[key] is Array || root[key] is Table)
}

/// The document prints as valid TOML: every part of it was read by toml_edit's
/// parser or made by toml_edit itself, with no raw text set by hand.
pub uninterp spec fn printable(doc: DocumentMut) -> bool;

/// `text.parse::<DocumentMut>()`, the error given by its message. A parsed
/// document holds the root entries and the comments of the text, and is
/// printable.
#[verifier::external_body]
fn parse_document(text: &str) -> (r: Result<DocumentMut, String>)
    ensures
        r is Ok <==> toml_root(text@) is Some,
        r matches Ok(d) ==> toml_root(text@) == Some(document_root(d)) && printable(d) && toml_comments(
            text@,
        ).subset_of(document_comments(d)),
        r matches Err(e) ==> e@ == toml_error_message(text@),
{
    match text.parse::<DocumentMut>() {
        Ok(d) => Ok(d),
        Err(e) => Err(e.to_string()),
    }
}

/// `doc[key] = toml_edit::value(v)`: sets (or adds) the root entry `key`; the
/// value and, for a new entry, the key are formatted by toml_edit.
#[verifier::external_body]
fn set_scalar(doc: &mut DocumentMut, key: &str, v: TomlValue)
    ensures
        document_root(*final(doc)) == document_root(*old(doc)).insert(key@, v.model()),
        printable(*old(doc)) ==> printable(*final(doc)),
        replaceable(document_root(*old(doc)), key@) ==> document_comments(*old(doc)).subset_of(
            document_comments(*final(doc)),
        ),
{
    doc[key] = match v {
        TomlValue::Str(s) => value(s),
        TomlValue::Int(i) => value(i),
        TomlValue::Bool(b) => value(b),
    };
}

/// `text.parse::<toml_edit::Value>()`, then `doc[key]` set to that value:
/// sets (or adds) the root entry `key` to the value written as `text`.
/// toml_edit keeps the value as it was written (which it parsed) and drops
/// the surrounding whitespace. When `text` is no TOML value, the document is
/// left alone and the error is given by its message.
#[verifier::external_body]
fn set_value_text(doc: &mut DocumentMut, key: &str, text: &str) -> (r: Result<(), String>)
    ensures
        r is Ok <==> toml_value(text@) is Some,
        r is Ok ==> document_root(*final(doc)) == document_root(*old(doc)).insert(key@, toml_value(text@)->0),
        r is Ok ==> (printable(*old(doc)) ==> printable(*final(doc))),
        r is Ok && replaceable(document_root(*old(doc)), key@) ==> document_comments(*old(doc)).subset_of(
            document_comments(*final(doc)),
        ),
        r matches Err(e) ==> e@ == toml_value_error(text@) && *final(doc) == *old(doc),
{
    match text.parse::<toml_edit::Value>() {
        Ok(v) => {
            doc[key] = TomlItem::Value(v);
            Ok(())
        },
        Err(e) => Err(e.to_string()),
    }
}

/// `doc.to_string()`: toml_edit writes the document back out; a printable
/// document's text parses to the same entries.
#[verifier::external_body]
fn document_text(doc: &DocumentMut) -> (r: String)
    ensures
        printable(*doc) ==> toml_root(r@) == Some(document_root(*doc)),
        printable(*doc) ==> document_comments(*doc).subset_of(toml_comments(r@)),
{
    doc.to_string()
}

/// The root entries after `apply_scalars` with `config`, the window width
/// being `width` and the height `height`.
pub open spec fn applied(
    root: Map<Seq<char>, TomlData>,
    config: Config,
    width: TomlData,
    height: TomlData,
) -> Map<Seq<char>, TomlData> {
    root.insert("hotkey"@, TomlData::Str(config.hotkey@))
        .insert("max_results"@, TomlData::Int((config.max_results as i64) as int))
        .insert("width"@, width)
        .insert("height"@, height)
        .insert("scan_start_menu"@, TomlData::Bool(config.scan_start_menu))
        .insert("scan_path"@, TomlData::Bool(config.scan_path))
        .insert("scan_chocolatey"@, TomlData::Bool(config.scan_chocolatey))
        .insert("system_commands"@, TomlData::Bool(config.system_commands))
}

/// `key` names one of the settings written back.
pub open spec fn is_setting(key: Seq<char>) -> bool {
    ||| key == "hotkey"@
    ||| key == "max_results"@
    ||| key == "width"@
    ||| key == "height"@
    ||| key == "scan_start_menu"@
    ||| key == "scan_path"@
    ||| key == "scan_chocolatey"@
    ||| key == "system_commands"@
}

/// None of the settings written back is an array or a table in `root`.
pub open spec fn settings_replaceable(root: Map<Seq<char>, TomlData>) -> bool {
    &&& replaceable(root, "hotkey"@)
    &&& replaceable(root, "max_results"@)
    &&& replaceable(root, "width"@)
    &&& replaceable(root, "height"@)
    &&& replaceable(root, "scan_start_menu"@)
    &&& replaceable(root, "scan_path"@)
    &&& replaceable(root, "scan_chocolatey"@)
    &&& replaceable(root, "system_commands"@)
}

/// The error returned for a config.toml that is not valid TOML.
pub open spec fn parse_error_text(text: Seq<char>) -> Seq<char> {
    "config.toml を解釈できません: "@ + toml_error_message(text)
}

/// The error returned for a window width that is not a TOML value.
pub open spec fn width_error_text(width: Seq<char>) -> Seq<char> {
    "ウィンドウの幅を解釈できません: "@ + toml_value_error(width)
}

/// The error returned for a window height that is not a TOML value.
pub open spec fn height_error_text(height: Seq<char>) -> Seq<char> {
    "ウィンドウの高さを解釈できません: "@ + toml_value_error(height)
}

/// 設定 UI で編集できるスカラー項目を config.toml に書き戻す。
///
/// toml_edit で既存の文書を書き換えるので、コメントや
/// [[scan_folders]] / [[commands]] / [[web_searches]] はそのまま残る。
/// 未記載のキーは追記されるため、新しい設定項目が増えても
/// 既存の config.toml が古いままにならない。
/// `width` and `height` are the window size written as TOML values (for
/// example `640.0`). Every other root entry, tables and arrays of tables
/// included, is kept with its whole contents. Comments on lines of their own are kept whenever none of
/// the settings is an array or a table in `text`; a comment after a setting's
/// value on the same line goes with the old value.
pub fn apply_scalars(text: &str, config: &Config, width: &str, height: &str) -> (r: Result<String, String>)
    ensures
        r is Ok <==> (toml_root(text@) is Some && toml_value(width@) is Some && toml_value(height@) is Some),
        r matches Err(e) ==> (toml_root(text@) is None && e@ == parse_error_text(text@)) || (toml_root(
            text@,
        ) is Some && toml_value(width@) is None && e@ == width_error_text(width@)) || (toml_root(text@) is Some
            && toml_value(width@) is Some && toml_value(height@) is None && e@ == height_error_text(height@)),
        r matches Ok(out) ==> toml_root(out@) == Some(
            applied(toml_root(text@)->0, *config, toml_value(width@)->0, toml_value(height@)->0),
        ),
        r matches Ok(out) ==> forall|k: Seq<char>|
            !is_setting(k) ==> #[trigger] toml_root(out@)->0.contains_key(k) == toml_root(text@)->0.contains_key(k)
                && toml_root(out@)->0[k] == toml_root(text@)->0[k],
        settings_replaceable(toml_root(text@)->0) ==> (r matches Ok(out) ==> toml_comments(text@).subset_of(
            toml_comments(out@),
        )),
{
    let mut doc = match parse_document(text) {
        Ok(d) => d,
        Err(e) => {
            return Err(concat("config.toml を解釈できません: ", e.as_str()));
        },
    };
    let ghost root0 = document_root(doc);
    let ghost comments0 = document_comments(doc);
    proof {
        reveal_strlit("hotkey");
        reveal_strlit("max_results");
        reveal_strlit("width");
        reveal_strlit("height");
        reveal_strlit("scan_start_menu");
        reveal_strlit("scan_path");
        reveal_strlit("scan_chocolatey");
        reveal_strlit("system_commands");
        lemma_setting_keys_differ();
    }
    set_scalar(&mut doc, "hotkey", TomlValue::Str(config.hotkey.clone()));
    let ghost c1 = document_comments(doc);
    set_scalar(&mut doc, "max_results", TomlValue::Int(#[verifier::truncate] (config.max_results as i64)));
    let ghost c2 = document_comments(doc);
    match set_value_text(&mut doc, "width", width) {
        Ok(()) => {},
        Err(e) => {
            return Err(concat("ウィンドウの幅を解釈できません: ", e.as_str()));
        },
    }
    let ghost c3 = document_comments(doc);
    match set_value_text(&mut doc, "height", height) {
        Ok(()) => {},
        Err(e) => {
            return Err(concat("ウィンドウの高さを解釈できません: ", e.as_str()));
        },
    }
    let ghost c4 = document_comments(doc);
    set_scalar(&mut doc, "scan_start_menu", TomlValue::Bool(config.scan_start_menu));
    let ghost c5 = document_comments(doc);
    set_scalar(&mut doc, "scan_path", TomlValue::Bool(config.scan_path));
    let ghost c6 = document_comments(doc);
    set_scalar(&mut doc, "scan_chocolatey", TomlValue::Bool(config.scan_chocolatey));
    let ghost c7 = document_comments(doc);
    set_scalar(&mut doc, "system_commands", TomlValue::Bool(config.system_commands));
    proof {
        if settings_replaceable(root0) {
            assert(comments0.subset_of(c1));
            assert(c1.subset_of(c2));
            assert(c2.subset_of(c3));
            assert(c3.subset_of(c4));
            assert(c4.subset_of(c5));
            assert(c5.subset_of(c6));
            assert(c6.subset_of(c7));
            assert(c7.subset_of(document_comments(doc)));
            assert(comments0.subset_of(document_comments(doc)));
        }
    }
    Ok(document_text(&doc))
}

/// The names of the settings written back differ from one another.
proof fn lemma_setting_keys_differ()
    ensures
        "hotkey"@ != "max_results"@,
        "hotkey"@ != "width"@,
        "hotkey"@ != "height"@,
        "hotkey"@ != "scan_start_menu"@,
        "hotkey"@ != "scan_path"@,
        "hotkey"@ != "scan_chocolatey"@,
        "hotkey"@ != "system_commands"@,
        "max_results"@ != "width"@,
        "max_results"@ != "height"@,
        "max_results"@ != "scan_start_menu"@,
        "max_results"@ != "scan_path"@,
        "max_results"@ != "scan_chocolatey"@,
        "max_results"@ != "system_commands"@,
        "width"@ != "height"@,
        "width"@ != "scan_start_menu"@,
        "width"@ != "scan_path"@,
        "width"@ != "scan_chocolatey"@,
        "width"@ != "system_commands"@,
        "height"@ != "scan_start_menu"@,
        "height"@ != "scan_path"@,
        "height"@ != "scan_chocolatey"@,
        "height"@ != "system_commands"@,
        "scan_start_menu"@ != "scan_path"@,
        "scan_start_menu"@ != "scan_chocolatey"@,
        "scan_start_menu"@ != "system_commands"@,
        "scan_path"@ != "scan_chocolatey"@,
        "scan_path"@ != "system_commands"@,
        "scan_chocolatey"@ != "system_commands"@,
{
    reveal_strlit("hotkey");
    reveal_strlit("max_results");
    reveal_strlit("width");
    reveal_strlit("height");
    reveal_strlit("scan_start_menu");
    reveal_strlit("scan_path");
    reveal_strlit("scan_chocolatey");
    reveal_strlit("system_commands");
    assert("hotkey"@.len() == 6);
    assert("max_results"@.len() == 11);
    assert("width"@.len() == 5);
    assert("height"@.len() == 6);
    assert("scan_start_menu"@.len() == 15);
    assert("scan_path"@.len() == 9);
    assert("scan_chocolatey"@.len() == 15);
    assert("system_commands"@.len() == 15);
    assert("hotkey"@[1] != "height"@[1]);
    assert("scan_start_menu"@[5] != "scan_chocolatey"@[5]);
    assert("scan_start_menu"@[1] != "system_commands"@[1]);
    assert("scan_chocolatey"@[1] != "system_commands"@[1]);
}

} // verus!
