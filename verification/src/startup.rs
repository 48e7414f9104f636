//! Windows startup registration: the command line written under
//! HKCU\Software\Microsoft\Windows\CurrentVersion\Run. Writing the registry
//! (or running reg.exe) stays with the caller.
use vstd::prelude::*;
use crate::text::concat;

verus! {

/// The Run key, as reg.exe names it.
pub const RUN_KEY: &'static str = "HKCU\\Software\\Microsoft\\Windows\\CurrentVersion\\Run";

/// The value name under the Run key.
pub const VALUE_NAME: &'static str = "Kwick";

/// The command line registered for logon: the quoted executable with
/// `--hidden`, so that it starts resident without showing the window.
pub open spec fn command_line(exe: Seq<char>) -> Seq<char> {
    "\""@ + exe + "\" --hidden"@
}

/// 登録するコマンドライン。ログオン時はウィンドウを出さず常駐だけさせる。
pub fn startup_command(exe: &str) -> (r: String)
    ensures
        r@ == command_line(exe@),
{
    concat(concat("\"", exe).as_str(), "\" --hidden")
}

/// reg.exe arguments that register (`enable`) or unregister launching at
/// logon; `None` when registering but the executable's path is unknown.
pub fn reg_args(enable: bool, exe: Option<&str>) -> (r: Option<Vec<String>>)
    ensures
        enable && exe is None ==> r is None,
        enable && exe is Some ==> r is Some && r->0@.map_values(|s: String| s@) == seq![
            "add"@,
            RUN_KEY@,
            "/v"@,
            VALUE_NAME@,
            "/t"@,
            "REG_SZ"@,
            "/d"@,
            command_line(exe->0@),
            "/f"@,
        ],
        !enable ==> r is Some && r->0@.map_values(|s: String| s@) == seq![
            "delete"@,
            RUN_KEY@,
            "/v"@,
            VALUE_NAME@,
            "/f"@,
        ],
{
    let mut args: Vec<String> = Vec::new();
    if enable {
        let exe = match exe {
            Some(e) => e,
            None => return None,
        };
        args.push("add".to_owned());
        args.push(RUN_KEY.to_owned());
        args.push("/v".to_owned());
        args.push(VALUE_NAME.to_owned());
        args.push("/t".to_owned());
        args.push("REG_SZ".to_owned());
        args.push("/d".to_owned());
        args.push(startup_command(exe));
        args.push("/f".to_owned());
    } else {
        args.push("delete".to_owned());
        args.push(RUN_KEY.to_owned());
        args.push("/v".to_owned());
        args.push(VALUE_NAME.to_owned());
        args.push("/f".to_owned());
    }
    assert(args@.map_values(|s: String| s@) =~= if enable {
        seq!["add"@, RUN_KEY@, "/v"@, VALUE_NAME@, "/t"@, "REG_SZ"@, "/d"@, command_line(exe->0@), "/f"@]
    } else {
        seq!["delete"@, RUN_KEY@, "/v"@, VALUE_NAME@, "/f"@]
    });
    Some(args)
}

} // verus!
