//! Curated, commonly used Windows tools and the power/session commands. Most
//! tools have no Start Menu shortcut (or are buried in "Windows Tools"), and
//! scanning PATH for them drags in hundreds of unrelated exes — so we list
//! them explicitly. The key carries English/Japanese aliases so both
//! spellings match. Which files exist is checked by the caller.
use vstd::prelude::*;
use super::{plain_item, views, Action, ActionView, Item, ItemView};
use crate::config::{joined_path, path_join};
use crate::text::concat;

verus! {

/// %WINDIR%, or C:\Windows when unset.
pub open spec fn windows_dir(windir: Option<Seq<char>>) -> Seq<char> {
    match windir {
        Some(w) => w,
        None => "C:\\Windows"@,
    }
}

/// Number of tools in System32 (see `sys32_tool`).
pub const SYS32_TOOL_COUNT: usize = 18;

/// (title, match aliases, file relative to System32) of the System32 tools.
pub open spec fn sys32_tool(i: int) -> (Seq<char>, Seq<char>, Seq<char>) {
    if i == 0 {
        ("リモート デスクトップ接続"@, "remote desktop connection mstsc rdp"@, "mstsc.exe"@)
    } else if i == 1 {
        ("タスク マネージャー"@, "task manager taskmgr"@, "taskmgr.exe"@)
    } else if i == 2 {
        ("タスク スケジューラ"@, "task scheduler taskschd"@, "taskschd.msc"@)
    } else if i == 3 {
        ("デバイス マネージャー"@, "device manager devmgmt"@, "devmgmt.msc"@)
    } else if i == 4 {
        ("サービス"@, "services"@, "services.msc"@)
    } else if i == 5 {
        ("イベント ビューアー"@, "event viewer eventvwr"@, "eventvwr.msc"@)
    } else if i == 6 {
        ("ディスクの管理"@, "disk management diskmgmt"@, "diskmgmt.msc"@)
    } else if i == 7 {
        ("コンピューターの管理"@, "computer management compmgmt"@, "compmgmt.msc"@)
    } else if i == 8 {
        ("コントロール パネル"@, "control panel"@, "control.exe"@)
    } else if i == 9 {
        ("コマンド プロンプト"@, "command prompt cmd"@, "cmd.exe"@)
    } else if i == 10 {
        ("システム構成"@, "system configuration msconfig"@, "msconfig.exe"@)
    } else if i == 11 {
        ("リソース モニター"@, "resource monitor resmon"@, "resmon.exe"@)
    } else if i == 12 {
        ("システム情報"@, "system information msinfo32"@, "msinfo32.exe"@)
    } else if i == 13 {
        ("メモ帳"@, "notepad"@, "notepad.exe"@)
    } else if i == 14 {
        ("電卓"@, "calculator calc"@, "calc.exe"@)
    } else if i == 15 {
        ("ペイント"@, "paint mspaint"@, "mspaint.exe"@)
    } else if i == 16 {
        ("Snipping Tool"@, "snipping 切り取り screenshot"@, "SnippingTool.exe"@)
    } else {
        ("PowerShell"@, "powershell"@, "WindowsPowerShell\\v1.0\\powershell.exe"@)
    }
}

fn sys32_tool_entry(i: usize) -> (r: (&'static str, &'static str, &'static str))
    requires
        i < SYS32_TOOL_COUNT,
    ensures
        (r.0@, r.1@, r.2@) == sys32_tool(i as int),
{
    match i {
        0 => ("リモート デスクトップ接続", "remote desktop connection mstsc rdp", "mstsc.exe"),
        1 => ("タスク マネージャー", "task manager taskmgr", "taskmgr.exe"),
        2 => ("タスク スケジューラ", "task scheduler taskschd", "taskschd.msc"),
        3 => ("デバイス マネージャー", "device manager devmgmt", "devmgmt.msc"),
        4 => ("サービス", "services", "services.msc"),
        5 => ("イベント ビューアー", "event viewer eventvwr", "eventvwr.msc"),
        6 => ("ディスクの管理", "disk management diskmgmt", "diskmgmt.msc"),
        7 => ("コンピューターの管理", "computer management compmgmt", "compmgmt.msc"),
        8 => ("コントロール パネル", "control panel", "control.exe"),
        9 => ("コマンド プロンプト", "command prompt cmd", "cmd.exe"),
        10 => ("システム構成", "system configuration msconfig", "msconfig.exe"),
        11 => ("リソース モニター", "resource monitor resmon", "resmon.exe"),
        12 => ("システム情報", "system information msinfo32", "msinfo32.exe"),
        13 => ("メモ帳", "notepad", "notepad.exe"),
        14 => ("電卓", "calculator calc", "calc.exe"),
        15 => ("ペイント", "paint mspaint", "mspaint.exe"),
        16 => ("Snipping Tool", "snipping 切り取り screenshot", "SnippingTool.exe"),
        _ => ("PowerShell", "powershell", "WindowsPowerShell\\v1.0\\powershell.exe"),
    }
}

/// Number of Control Panel applets (see `cpl_tool`).
pub const CPL_TOOL_COUNT: usize = 3;

/// (title, match aliases, applet file in System32) of the Control Panel applets.
pub open spec fn cpl_tool(i: int) -> (Seq<char>, Seq<char>, Seq<char>) {
    if i == 0 {
        ("プログラムと機能"@, "programs features uninstall appwiz アンインストール"@, "appwiz.cpl"@)
    } else if i == 1 {
        ("ネットワーク接続"@, "network connections ncpa"@, "ncpa.cpl"@)
    } else {
        ("システムのプロパティ"@, "system properties sysdm"@, "sysdm.cpl"@)
    }
}

fn cpl_tool_entry(i: usize) -> (r: (&'static str, &'static str, &'static str))
    requires
        i < CPL_TOOL_COUNT,
    ensures
        (r.0@, r.1@, r.2@) == cpl_tool(i as int),
{
    match i {
        0 => ("プログラムと機能", "programs features uninstall appwiz アンインストール", "appwiz.cpl"),
        1 => ("ネットワーク接続", "network connections ncpa", "ncpa.cpl"),
        _ => ("システムのプロパティ", "system properties sysdm", "sysdm.cpl"),
    }
}

/// A curated item: matched by its title and aliases, with the same boost as
/// Start Menu apps (curated tools outrank raw PATH exes).
pub open spec fn finished(it: ItemView, title: Seq<char>, aliases: Seq<char>) -> ItemView {
    ItemView { key: title + " "@ + aliases, rank_boost: 40, ..it }
}

/// Sets the key and the boost of a curated item.
pub fn finish(item: &mut Item, title: &str, aliases: &str)
    ensures
        final(item)@ == finished(old(item)@, title@, aliases@),
{
    item.key = concat(concat(title, " ").as_str(), aliases);
    // Same boost as Start Menu apps: curated tools outrank raw PATH exes.
    item.rank_boost = 40;
}

/// The item that opens the file `path`.
pub open spec fn file_item(title: Seq<char>, aliases: Seq<char>, path: Seq<char>) -> ItemView {
    finished(plain_item(title, path, ActionView::Open(path)), title, aliases)
}

/// Adds the item that opens `path`, when the file exists.
pub fn push_file(items: &mut Vec<Item>, title: &str, aliases: &str, path: String, present: bool)
    ensures
        views(final(items)@) == (if present {
            views(old(items)@).push(file_item(title@, aliases@, path@))
        } else {
            views(old(items)@)
        }),
{
    if !present {
        return;
    }
    let mut item = Item::new(title.to_owned(), path.clone(), Action::Open(path));
    finish(&mut item, title, aliases);
    let ghost before = items@;
    items.push(item);
    assert(views(items@) =~= views(before).push(file_item(title@, aliases@, path@)));
}

/// The files whose existence `scan` needs, in the order it takes the answers:
/// the System32 tools, regedit.exe, then the Control Panel applets.
pub open spec fn checked_path(windir: Seq<char>, i: int) -> Seq<char> {
    let sys32 = joined_path(windir, "System32"@);
    if i < SYS32_TOOL_COUNT {
        joined_path(sys32, sys32_tool(i).2)
    } else if i == SYS32_TOOL_COUNT {
        joined_path(windir, "regedit.exe"@)
    } else {
        joined_path(sys32, cpl_tool(i - SYS32_TOOL_COUNT - 1).2)
    }
}

/// Number of files whose existence `scan` needs.
pub const CHECKED_COUNT: usize = 22;

/// The files whose existence `scan` needs (see `checked_path`).
pub fn checked_paths(windir: Option<&str>) -> (r: Vec<String>)
    ensures
        r@.len() == CHECKED_COUNT,
        forall|i: int| 0 <= i < CHECKED_COUNT ==> (#[trigger] r@[i])@ == checked_path(
            windows_dir(
                match windir {
                    Some(w) => Some(w@),
                    None => None,
                },
            ),
            i,
        ),
{
    let wd = match windir {
        Some(w) => w.to_owned(),
        None => "C:\\Windows".to_owned(),
    };
    let sys32 = path_join(wd.as_str(), "System32");
    let mut out: Vec<String> = Vec::new();
    let mut i: usize = 0;
    while i < SYS32_TOOL_COUNT
        invariant
            i <= SYS32_TOOL_COUNT,
            out@.len() == i,
            sys32@ == joined_path(wd@, "System32"@),
            forall|j: int| 0 <= j < i ==> (#[trigger] out@[j])@ == checked_path(wd@, j),
        decreases SYS32_TOOL_COUNT - i,
    {
        let (_, _, file) = sys32_tool_entry(i);
        out.push(path_join(sys32.as_str(), file));
        i = i + 1;
    }
    out.push(path_join(wd.as_str(), "regedit.exe"));
    let mut j: usize = 0;
    while j < CPL_TOOL_COUNT
        invariant
            j <= CPL_TOOL_COUNT,
            out@.len() == SYS32_TOOL_COUNT + 1 + j,
            sys32@ == joined_path(wd@, "System32"@),
            forall|k: int| 0 <= k < out@.len() ==> (#[trigger] out@[k])@ == checked_path(wd@, k),
        decreases CPL_TOOL_COUNT - j,
    {
        let (_, _, cpl) = cpl_tool_entry(j);
        out.push(path_join(sys32.as_str(), cpl));
        j = j + 1;
    }
    out
}

/// The item of Control Panel applet `i` (no "open" verb on .cpl, so it goes
/// through control.exe), showing the applet's icon.
pub open spec fn cpl_item(windir: Seq<char>, i: int) -> ItemView {
    let sys32 = joined_path(windir, "System32"@);
    let cpl_path = joined_path(sys32, cpl_tool(i).2);
    ItemView {
        icon_path: Some(cpl_path),
        ..finished(
            plain_item(
                cpl_tool(i).0,
                cpl_path,
                ActionView::Exec { cmd: joined_path(sys32, "control.exe"@), args: Some(cpl_tool(i).2) },
            ),
            cpl_tool(i).0,
            cpl_tool(i).1,
        )
    }
}

/// The items of the curated tools whose files exist (`present[i]` answers for
/// `checked_path(windir, i)`), in table order.
pub open spec fn tool_items(windir: Seq<char>, present: Seq<bool>, n: int) -> Seq<ItemView>
    decreases n,
{
    if n <= 0 {
        Seq::empty()
    } else {
        let i = n - 1;
        tool_items(windir, present, i) + if !present[i] {
            Seq::empty()
        } else if i < SYS32_TOOL_COUNT {
            seq![file_item(sys32_tool(i).0, sys32_tool(i).1, checked_path(windir, i))]
        } else if i == SYS32_TOOL_COUNT {
            seq![file_item("レジストリ エディター"@, "registry editor regedit"@, checked_path(windir, i))]
        } else {
            seq![cpl_item(windir, i - SYS32_TOOL_COUNT - 1)]
        }
    }
}

/// The "environment variables" item.
pub open spec fn env_item(windir: Seq<char>) -> ItemView {
    let sys32 = joined_path(windir, "System32"@);
    ItemView {
        icon_path: Some(joined_path(sys32, "sysdm.cpl"@)),
        ..finished(
            plain_item(
                "環境変数の編集"@,
                "システム環境変数を編集"@,
                ActionView::Exec {
                    cmd: joined_path(sys32, "rundll32.exe"@),
                    args: Some("sysdm.cpl,EditEnvironmentVariables"@),
                },
            ),
            "環境変数の編集"@,
            "environment variables env"@,
        )
    }
}

/// The "settings" item.
pub open spec fn settings_item() -> ItemView {
    finished(
        plain_item("設定"@, "Windows の設定"@, ActionView::Open("ms-settings:"@)),
        "設定"@,
        "settings ms-settings"@,
    )
}

/// The curated tools: those whose files exist, then the environment-variables
/// editor and the settings app. `windir` is %WINDIR% (C:\Windows when unset);
/// `present[i]` tells whether `checked_paths(windir)[i]` exists.
pub fn scan(windir: Option<&str>, present: &[bool]) -> (r: Vec<Item>)
    requires
        present@.len() == CHECKED_COUNT,
    ensures
        ({
            let wd = windows_dir(
                match windir {
                    Some(w) => Some(w@),
                    None => None,
                },
            );
            views(r@) == tool_items(wd, present@, CHECKED_COUNT as int) + seq![env_item(wd), settings_item()]
        }),
{
    let wd = match windir {
        Some(w) => w.to_owned(),
        None => "C:\\Windows".to_owned(),
    };
    let paths = checked_paths(Some(wd.as_str()));
    let sys32 = path_join(wd.as_str(), "System32");
    let mut items: Vec<Item> = Vec::new();
    let mut i: usize = 0;
    while i < CHECKED_COUNT
        invariant
            i <= CHECKED_COUNT,
            present@.len() == CHECKED_COUNT,
            paths@.len() == CHECKED_COUNT,
            sys32@ == joined_path(wd@, "System32"@),
            forall|k: int| 0 <= k < CHECKED_COUNT ==> (#[trigger] paths@[k])@ == checked_path(wd@, k),
            views(items@) == tool_items(wd@, present@, i as int),
        decreases CHECKED_COUNT - i,
    {
        if i < SYS32_TOOL_COUNT {
            let (title, aliases, _) = sys32_tool_entry(i);
            push_file(&mut items, title, aliases, paths[i].clone(), present[i]);
        } else if i == SYS32_TOOL_COUNT {
            push_file(&mut items, "レジストリ エディター", "registry editor regedit", paths[i].clone(), present[i]);
        } else if present[i] {
            let (title, aliases, cpl) = cpl_tool_entry(i - SYS32_TOOL_COUNT - 1);
            let cpl_path = paths[i].clone();
            let mut item = Item::new(
                title.to_owned(),
                cpl_path.clone(),
                Action::Exec { cmd: path_join(sys32.as_str(), "control.exe"), args: Some(cpl.to_owned()) },
            );
            item.icon_path = Some(cpl_path);
            finish(&mut item, title, aliases);
            let ghost before = items@;
            items.push(item);
            assert(views(items@) =~= views(before).push(cpl_item(wd@, i - SYS32_TOOL_COUNT - 1)));
        }
        i = i + 1;
    }
    let mut env = Item::new(
        "環境変数の編集".to_owned(),
        "システム環境変数を編集".to_owned(),
        Action::Exec {
            cmd: path_join(sys32.as_str(), "rundll32.exe"),
            args: Some("sysdm.cpl,EditEnvironmentVariables".to_owned()),
        },
    );
    env.icon_path = Some(path_join(sys32.as_str(), "sysdm.cpl"));
    finish(&mut env, "環境変数の編集", "environment variables env");
    let ghost before = items@;
    items.push(env);
    let mut settings = Item::new("設定".to_owned(), "Windows の設定".to_owned(), Action::Open("ms-settings:".to_owned()));
    finish(&mut settings, "設定", "settings ms-settings");
    items.push(settings);
    assert(views(items@) =~= views(before) + seq![env_item(wd@), settings_item()]);
    items
}

/// Number of power/session commands.
pub const POWER_COUNT: usize = 6;

/// (title, subtitle, match aliases, command is shutdown.exe (else rundll32.exe), args)
/// of the power/session commands.
pub open spec fn power_entry(i: int) -> (Seq<char>, Seq<char>, Seq<char>, bool, Seq<char>) {
    if i == 0 {
        ("シャットダウン"@, "PC の電源を切る"@, "shutdown power off"@, true, "/s /t 0"@)
    } else if i == 1 {
        ("再起動"@, "PC を再起動する"@, "restart reboot"@, true, "/r /t 0"@)
    } else if i == 2 {
        ("スリープ"@, "PC をスリープ状態にする"@, "sleep suspend"@, false, "powrprof.dll,SetSuspendState 0,1,0"@)
    } else if i == 3 {
        ("休止状態"@, "PC を休止状態にする"@, "hibernate"@, true, "/h"@)
    } else if i == 4 {
        ("サインアウト"@, "現在のユーザーをサインアウトする"@, "sign out signout logoff logout"@, true, "/l"@)
    } else {
        ("ロック"@, "画面をロックする"@, "lock workstation"@, false, "user32.dll,LockWorkStation"@)
    }
}

fn power_entry_exec(i: usize) -> (r: (&'static str, &'static str, &'static str, bool, &'static str))
    requires
        i < POWER_COUNT,
    ensures
        (r.0@, r.1@, r.2@, r.3, r.4@) == power_entry(i as int),
{
    match i {
        0 => ("シャットダウン", "PC の電源を切る", "shutdown power off", true, "/s /t 0"),
        1 => ("再起動", "PC を再起動する", "restart reboot", true, "/r /t 0"),
        2 => ("スリープ", "PC をスリープ状態にする", "sleep suspend", false, "powrprof.dll,SetSuspendState 0,1,0"),
        3 => ("休止状態", "PC を休止状態にする", "hibernate", true, "/h"),
        4 => ("サインアウト", "現在のユーザーをサインアウトする", "sign out signout logoff logout", true, "/l"),
        _ => ("ロック", "画面をロックする", "lock workstation", false, "user32.dll,LockWorkStation"),
    }
}

/// The item of power/session command `i`.
pub open spec fn power_item(windir: Seq<char>, i: int) -> ItemView {
    let sys32 = joined_path(windir, "System32"@);
    let e = power_entry(i);
    let cmd = if e.3 { joined_path(sys32, "shutdown.exe"@) } else { joined_path(sys32, "rundll32.exe"@) };
    finished(plain_item(e.0, e.1, ActionView::Exec { cmd, args: Some(e.4) }), e.0, e.2)
}

/// Power / session commands (shutdown, restart, sleep...). Gated by
/// `system_commands` in config.toml (default: true).
pub fn power_items(windir: Option<&str>) -> (r: Vec<Item>)
    ensures
        views(r@) == Seq::new(
            POWER_COUNT as nat,
            |i: int|
                power_item(
                    windows_dir(
                        match windir {
                            Some(w) => Some(w@),
                            None => None,
                        },
                    ),
                    i,
                ),
        ),
{
    let wd = match windir {
        Some(w) => w.to_owned(),
        None => "C:\\Windows".to_owned(),
    };
    let sys32 = path_join(wd.as_str(), "System32");
    let shutdown = path_join(sys32.as_str(), "shutdown.exe");
    let rundll = path_join(sys32.as_str(), "rundll32.exe");
    let mut items: Vec<Item> = Vec::new();
    let mut i: usize = 0;
    while i < POWER_COUNT
        invariant
            i <= POWER_COUNT,
            sys32@ == joined_path(wd@, "System32"@),
            shutdown@ == joined_path(sys32@, "shutdown.exe"@),
            rundll@ == joined_path(sys32@, "rundll32.exe"@),
            views(items@) == Seq::new(i as nat, |k: int| power_item(wd@, k)),
        decreases POWER_COUNT - i,
    {
        let e = power_entry_exec(i);
        let (title, subtitle, aliases, is_shutdown, args) = e;
        assert(title@ == power_entry(i as int).0 && subtitle@ == power_entry(i as int).1);
        assert(aliases@ == power_entry(i as int).2 && is_shutdown == power_entry(i as int).3);
        assert(args@ == power_entry(i as int).4);
        let cmd = if is_shutdown { shutdown.clone() } else { rundll.clone() };
        let mut item = Item::new(
            title.to_owned(),
            subtitle.to_owned(),
            Action::Exec { cmd, args: Some(args.to_owned()) },
        );
        finish(&mut item, title, aliases);
        assert(item@ == power_item(wd@, i as int));
        let ghost before = items@;
        items.push(item);
        assert(views(items@) =~= views(before).push(power_item(wd@, i as int)));
        assert(views(items@) =~= Seq::new((i + 1) as nat, |k: int| power_item(wd@, k)));
        i = i + 1;
    }
    items
}

/// What each power command does, for any Windows folder: shutdown runs
/// `shutdown.exe /s /t 0`, restart `shutdown.exe /r /t 0`, sleep
/// `rundll32.exe powrprof.dll,SetSuspendState 0,1,0`, hibernate
/// `shutdown.exe /h`, sign-out `shutdown.exe /l` and lock
/// `rundll32.exe user32.dll,LockWorkStation`; no two of them run the same
/// command line.
pub proof fn law_power_commands(windir: Seq<char>)
    ensures
        ({
            let sys32 = joined_path(windir, "System32"@);
            let sd = joined_path(sys32, "shutdown.exe"@);
            let rd = joined_path(sys32, "rundll32.exe"@);
            &&& power_item(windir, 0).title == "シャットダウン"@
            &&& power_item(windir, 0).action == ActionView::Exec { cmd: sd, args: Some("/s /t 0"@) }
            &&& power_item(windir, 1).title == "再起動"@
            &&& power_item(windir, 1).action == ActionView::Exec { cmd: sd, args: Some("/r /t 0"@) }
            &&& power_item(windir, 2).title == "スリープ"@
            &&& power_item(windir, 2).action == ActionView::Exec { cmd: rd, args: Some("powrprof.dll,SetSuspendState 0,1,0"@) }
            &&& power_item(windir, 3).title == "休止状態"@
            &&& power_item(windir, 3).action == ActionView::Exec { cmd: sd, args: Some("/h"@) }
            &&& power_item(windir, 4).title == "サインアウト"@
            &&& power_item(windir, 4).action == ActionView::Exec { cmd: sd, args: Some("/l"@) }
            &&& power_item(windir, 5).title == "ロック"@
            &&& power_item(windir, 5).action == ActionView::Exec { cmd: rd, args: Some("user32.dll,LockWorkStation"@) }
        }),
        forall|i: int, j: int|
            0 <= i < j < POWER_COUNT ==> #[trigger] power_item(windir, i).action != #[trigger] power_item(windir, j).action,
{
    reveal_strlit("/s /t 0");
    reveal_strlit("/r /t 0");
    reveal_strlit("powrprof.dll,SetSuspendState 0,1,0");
    reveal_strlit("/h");
    reveal_strlit("/l");
    reveal_strlit("user32.dll,LockWorkStation");
    assert("/s /t 0"@.len() == 7);
    assert("/r /t 0"@.len() == 7);
    assert("powrprof.dll,SetSuspendState 0,1,0"@.len() == 34);
    assert("/h"@.len() == 2);
    assert("/l"@.len() == 2);
    assert("user32.dll,LockWorkStation"@.len() == 26);
    assert("/s /t 0"@[1] != "/r /t 0"@[1]);
    assert("/h"@[1] != "/l"@[1]);
    assert forall|i: int, j: int|
        0 <= i < j < POWER_COUNT implies #[trigger] power_item(windir, i).action != #[trigger] power_item(windir, j).action by {
        assert(power_entry(i).4 != power_entry(j).4);
    }
}

} // verus!
