use vstd::prelude::*;

use crate::text::{concat, owned};

verus! {

/// Class name of the Windows Hello credential dialog host window.
pub const CREDENTIAL_DIALOG_CLASS: &'static str = "Credential Dialog Xaml Host";
/// Automation id of the dialog's confirmation button.
pub const OK_BUTTON_AUTOMATION_ID: &'static str = "OkButton";
/// Automation id of the PIN entry field (present only in PIN mode).
pub const PASSWORD_FIELD_AUTOMATION_ID: &'static str = "PasswordField_4";

/// Name under which the service is registered.
pub const SERVICE_NAME: &'static str = "Breeze";
/// Display name of the service.
pub const SERVICE_DISPLAY_NAME: &'static str = "Breeze - Auto Windows Hello";
/// Description given to the service on install.
pub const SERVICE_DESCRIPTION: &'static str = "Automatically confirms Windows Hello face recognition dialogs";

/// Security descriptor given to the data directory on install: full access for
/// administrators and SYSTEM, modify rights for the Users group, inherited by
/// the files and directories below it.
pub const DATA_DIR_SDDL: &'static str = "D:PAI(A;OICI;FA;;;BA)(A;OICI;FA;;;SY)(A;OICI;0x1301bf;;;BU)";

/// Minimum time between two clicks on the same dialog.
pub const DEBOUNCE_MS: u64 = 2000;
/// Period of the service loop's supervisor tick.
pub const SUPERVISOR_POLL_INTERVAL_MS: u64 = 2000;
/// First delay before restarting a crashed helper.
pub const BACKOFF_INITIAL_MS: u64 = 2000;
/// Largest delay between helper restarts.
pub const BACKOFF_MAX_MS: u64 = 60_000;
/// Uptime after which a running helper counts as stable and the delay is reset.
pub const BACKOFF_RESET_AFTER_MS: u64 = 30_000;

/// The Windows path separator.
pub open spec fn separator() -> char {
    '\\'
}

/// `base` joined with `name` by one separator, as `Path::join` does on Windows
/// for a relative `name`: no separator is added when `base` is empty or already
/// ends in one. (A bare drive such as `C:` gets a separator too, which
/// `Path::join` would not add.)
pub open spec fn join_spec(base: Seq<char>, name: Seq<char>) -> Seq<char> {
    if base.len() == 0 || base.last() == '\\' || base.last() == '/' {
        base + name
    } else {
        base + seq![separator()] + name
    }
}

/// The data directory: `C:\ProgramData\Breeze-WH`.
pub open spec fn data_dir_spec() -> Seq<char> {
    "C:\\ProgramData\\Breeze-WH"@
}

/// Joins a relative component to a directory path.
pub fn join_path(base: &str, name: &str) -> (r: String)
    ensures
        r@ == join_spec(base@, name@),
{
    let n = base.unicode_len();
    if n == 0 {
        return concat(base, name);
    }
    let last = base.get_char(n - 1);
    if last == '\\' || last == '/' {
        return concat(base, name);
    }
    let with_sep = concat(base, "\\");
    proof {
        reveal_strlit("\\");
    }
    let mut r = with_sep;
    r.append(name);
    r
}

/// `C:\ProgramData\Breeze-WH`: holds the configuration and the logs.
pub fn data_dir() -> (r: String)
    ensures
        r@ == data_dir_spec(),
{
    owned("C:\\ProgramData\\Breeze-WH")
}

/// The `logs` directory under the data directory.
pub fn log_dir() -> (r: String)
    ensures
        r@ == join_spec(data_dir_spec(), "logs"@),
{
    let d = data_dir();
    join_path(d.as_str(), "logs")
}

/// The `config.toml` file under the data directory.
pub fn config_path() -> (r: String)
    ensures
        r@ == join_spec(data_dir_spec(), "config.toml"@),
{
    let d = data_dir();
    join_path(d.as_str(), "config.toml")
}

} // verus!
