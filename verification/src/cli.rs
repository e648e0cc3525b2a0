use vstd::prelude::*;

use crate::cmdline::{command_line_spec, lemma_command_line_round_trip, parse_command_line};
use crate::elevation::{extract_spec, output_file_flag};
use crate::text::{owned, str_eq};

verus! {

/// The release API that the upgrade command asks for the latest release.
pub const GITHUB_API_LATEST: &'static str = "https://api.github.com/repos/evan-choi/breeze-wh/releases/latest";
/// The release asset that holds the program.
pub const ASSET_NAME: &'static str = "breeze-wh.exe";
/// How often the upgrade command asks whether the service has stopped.
pub const STOP_WAIT_POLLS: u32 = 60;
/// The pause between two of those questions.
pub const STOP_WAIT_INTERVAL_MS: u64 = 500;

/// The commands of the command-line interface.
#[derive(Debug, Clone, Copy, PartialEq, Eq, Structural)]
pub enum Command {
    Version,
    Install,
    Uninstall,
    Start,
    Stop,
    Status,
    Upgrade,
    /// Anything else: print the usage and exit with code 1.
    Usage,
}

/// How the program was invoked.
#[derive(Debug, Clone, Copy, PartialEq, Eq, Structural)]
pub enum Invocation {
    /// Run as the Windows service (used by the service control manager).
    Service,
    /// Run the UI Automation helper (used by the service).
    Helper,
    /// A command that needs administrator rights.
    Elevated(Command),
    /// A command that runs without administrator rights.
    Direct(Command),
}

/// The state of the service, as `status` reports it.
#[derive(Debug, Clone, Copy, PartialEq, Eq, Structural)]
pub enum ServiceStateKind {
    Stopped,
    StartPending,
    StopPending,
    Running,
    ContinuePending,
    PausePending,
    Paused,
}

/// The characters of an optional argument.
pub open spec fn opt_str_view(o: Option<&str>) -> Option<Seq<char>> {
    match o {
        Some(s) => Some(s@),
        None => None,
    }
}

/// The command that the first argument names.
pub open spec fn command_spec(first: Option<Seq<char>>) -> Command {
    match first {
        None => Command::Usage,
        Some(a) => if a == "--version"@ || a == "-V"@ || a == "version"@ {
            Command::Version
        } else if a == "install"@ {
            Command::Install
        } else if a == "uninstall"@ {
            Command::Uninstall
        } else if a == "start"@ {
            Command::Start
        } else if a == "stop"@ {
            Command::Stop
        } else if a == "status"@ {
            Command::Status
        } else if a == "upgrade"@ {
            Command::Upgrade
        } else {
            Command::Usage
        },
    }
}

/// The command that the first argument names.
pub fn parse_command(first: Option<&str>) -> (r: Command)
    ensures
        r == command_spec(opt_str_view(first)),
{
    match first {
        None => Command::Usage,
        Some(a) => {
            if str_eq(a, "--version") || str_eq(a, "-V") || str_eq(a, "version") {
                Command::Version
            } else if str_eq(a, "install") {
                Command::Install
            } else if str_eq(a, "uninstall") {
                Command::Uninstall
            } else if str_eq(a, "start") {
                Command::Start
            } else if str_eq(a, "stop") {
                Command::Stop
            } else if str_eq(a, "status") {
                Command::Status
            } else if str_eq(a, "upgrade") {
                Command::Upgrade
            } else {
                Command::Usage
            }
        },
    }
}

/// Whether a command changes the service and so needs administrator rights.
pub open spec fn needs_elevation_spec(c: Command) -> bool {
    c == Command::Install || c == Command::Uninstall || c == Command::Start || c == Command::Stop
        || c == Command::Upgrade
}

/// The mode that the first argument selects: `service` and `helper` are the
/// internal modes; `install`, `uninstall`, `start`, `stop` and `upgrade` need
/// administrator rights; everything else goes to the command-line interface as is.
pub open spec fn invocation_spec(first: Option<Seq<char>>) -> Invocation {
    if first == Some("service"@) {
        Invocation::Service
    } else if first == Some("helper"@) {
        Invocation::Helper
    } else if needs_elevation_spec(command_spec(first)) {
        Invocation::Elevated(command_spec(first))
    } else {
        Invocation::Direct(command_spec(first))
    }
}

/// The mode that the first argument selects.
pub fn classify_invocation(first: Option<&str>) -> (r: Invocation)
    ensures
        r == invocation_spec(opt_str_view(first)),
{
    if let Some(a) = first {
        if str_eq(a, "service") {
            return Invocation::Service;
        }
        if str_eq(a, "helper") {
            return Invocation::Helper;
        }
    }
    let c = parse_command(first);
    match c {
        Command::Install | Command::Uninstall | Command::Start | Command::Stop | Command::Upgrade => {
            Invocation::Elevated(c)
        },
        _ => Invocation::Direct(c),
    }
}

/// Whether the command, run without administrator rights, first checks that the
/// service is installed, to fail with a clear message before the UAC prompt.
pub fn checks_service_before_elevation(c: Command) -> (r: bool)
    ensures
        r == (c == Command::Start || c == Command::Stop || c == Command::Uninstall),
{
    match c {
        Command::Start | Command::Stop | Command::Uninstall => true,
        _ => false,
    }
}

/// The label that `status` prints for a service state.
pub open spec fn state_label_spec(s: ServiceStateKind) -> Seq<char> {
    match s {
        ServiceStateKind::Stopped => "Stopped"@,
        ServiceStateKind::StartPending => "Start Pending"@,
        ServiceStateKind::StopPending => "Stop Pending"@,
        ServiceStateKind::Running => "Running"@,
        ServiceStateKind::ContinuePending => "Continue Pending"@,
        ServiceStateKind::PausePending => "Pause Pending"@,
        ServiceStateKind::Paused => "Paused"@,
    }
}

/// The label that `status` prints for a service state.
pub fn state_label(s: ServiceStateKind) -> (r: &'static str)
    ensures
        r@ == state_label_spec(s),
{
    match s {
        ServiceStateKind::Stopped => "Stopped",
        ServiceStateKind::StartPending => "Start Pending",
        ServiceStateKind::StopPending => "Stop Pending",
        ServiceStateKind::Running => "Running",
        ServiceStateKind::ContinuePending => "Continue Pending",
        ServiceStateKind::PausePending => "Pause Pending",
        ServiceStateKind::Paused => "Paused",
    }
}

/// Whether `uninstall` stops the service before deleting it: unless it is stopped.
pub fn stop_before_delete(s: ServiceStateKind) -> (r: bool)
    ensures
        r == (s != ServiceStateKind::Stopped),
{
    match s {
        ServiceStateKind::Stopped => false,
        _ => true,
    }
}

/// Whether the upgrade counts the service as running, to restart it afterwards.
pub fn counts_as_running(s: ServiceStateKind) -> (r: bool)
    ensures
        r == (s == ServiceStateKind::Running || s == ServiceStateKind::StartPending),
{
    match s {
        ServiceStateKind::Running | ServiceStateKind::StartPending => true,
        _ => false,
    }
}

/// One asset of a release, as the release API describes it (a field that is
/// missing or not a string is `None`).
pub struct AssetInfo {
    pub name: Option<String>,
    pub browser_download_url: Option<String>,
}

/// The latest release, as the release API describes it (`assets` is `None`
/// when the field is missing or not an array).
pub struct ReleaseInfo {
    pub tag_name: Option<String>,
    pub assets: Option<Vec<AssetInfo>>,
}

/// The characters of an optional string.
pub open spec fn opt_string_view(o: Option<String>) -> Option<Seq<char>> {
    match o {
        Some(s) => Some(s@),
        None => None,
    }
}

/// An asset as a pair of its name and its download address.
pub open spec fn asset_view(a: AssetInfo) -> (Option<Seq<char>>, Option<Seq<char>>) {
    (opt_string_view(a.name), opt_string_view(a.browser_download_url))
}

/// The assets as pairs of names and download addresses.
pub open spec fn assets_view(v: Seq<AssetInfo>) -> Seq<(Option<Seq<char>>, Option<Seq<char>>)> {
    v.map_values(|a: AssetInfo| asset_view(a))
}

/// What the upgrade command does.
pub enum UpgradePlan {
    /// The installed version is the latest one.
    UpToDate,
    /// Download `download_url` and install it as `latest_version`.
    Upgrade { latest_version: String, download_url: String },
}

/// Why the release information cannot be used.
#[derive(Debug, Clone, Copy, PartialEq, Eq, Structural)]
pub enum UpgradeError {
    /// The latest release has no tag name.
    NoTagName,
    /// The release has no asset list.
    NoAssets,
    /// No asset is named `breeze-wh.exe` (or the first one so named has no address).
    AssetNotFound,
}

impl UpgradeError {
    /// The text of the error.
    pub fn message(&self) -> (r: &'static str)
        ensures
            r@ == match self {
                UpgradeError::NoTagName => "latest release has no tag_name"@,
                UpgradeError::NoAssets => "release has no assets"@,
                UpgradeError::AssetNotFound => "breeze-wh.exe not found in release assets"@,
            },
    {
        match self {
            UpgradeError::NoTagName => "latest release has no tag_name",
            UpgradeError::NoAssets => "release has no assets",
            UpgradeError::AssetNotFound => "breeze-wh.exe not found in release assets",
        }
    }
}

/// `s` without its leading `v` characters (all of them, as `trim_start_matches('v')`).
pub open spec fn trim_v_spec(s: Seq<char>) -> Seq<char>
    decreases s.len(),
{
    if s.len() > 0 && s[0] == 'v' {
        trim_v_spec(s.drop_first())
    } else {
        s
    }
}

/// The download address of the first asset named `breeze-wh.exe`, if it has one.
pub open spec fn find_asset_url_spec(assets: Seq<(Option<Seq<char>>, Option<Seq<char>>)>) -> Option<Seq<char>>
    decreases assets.len(),
{
    if assets.len() == 0 {
        None
    } else if assets[0].0 == Some(ASSET_NAME@) {
        assets[0].1
    } else {
        find_asset_url_spec(assets.drop_first())
    }
}

/// The upgrade decision: `Ok(None)` when up to date, `Ok(Some((latest, url)))`
/// to upgrade. The tag is read first (a leading `v` removed) and compared with
/// the installed version; only then are the assets searched.
pub open spec fn plan_upgrade_spec(
    tag: Option<Seq<char>>,
    assets: Option<Seq<(Option<Seq<char>>, Option<Seq<char>>)>>,
    current: Seq<char>,
) -> Result<Option<(Seq<char>, Seq<char>)>, UpgradeError> {
    match tag {
        None => Err(UpgradeError::NoTagName),
        Some(t) => {
            let latest = trim_v_spec(t);
            if latest == current {
                Ok(None)
            } else {
                match assets {
                    None => Err(UpgradeError::NoAssets),
                    Some(a) => match find_asset_url_spec(a) {
                        None => Err(UpgradeError::AssetNotFound),
                        Some(url) => Ok(Some((latest, url))),
                    },
                }
            }
        },
    }
}

/// A plan as the spec-level decision.
pub open spec fn plan_view(r: Result<UpgradePlan, UpgradeError>) -> Result<Option<(Seq<char>, Seq<char>)>, UpgradeError> {
    match r {
        Ok(UpgradePlan::UpToDate) => Ok(None),
        Ok(UpgradePlan::Upgrade { latest_version, download_url }) => Ok(Some((latest_version@, download_url@))),
        Err(e) => Err(e),
    }
}

/// The release's tag without its leading `v` characters.
pub fn trim_leading_v(s: &str) -> (r: String)
    ensures
        r@ == trim_v_spec(s@),
{
    let n = s.unicode_len();
    let mut i: usize = 0;
    assert(s@.subrange(0, n as int) =~= s@);
    while i < n && s.get_char(i) == 'v'
        invariant
            n == s@.len(),
            i <= n,
            trim_v_spec(s@) == trim_v_spec(s@.subrange(i as int, n as int)),
        decreases n - i,
    {
        assert(s@.subrange(i as int, n as int).drop_first() =~= s@.subrange(i + 1, n as int));
        i = i + 1;
    }
    owned(s.substring_char(i, n))
}

/// The download address of the first asset named `breeze-wh.exe`, if it has one.
pub fn find_asset_url(assets: &Vec<AssetInfo>) -> (r: Option<String>)
    ensures
        opt_string_view(r) == find_asset_url_spec(assets_view(assets@)),
{
    let ghost all = assets_view(assets@);
    let n = assets.len();
    let mut i: usize = 0;
    assert(all.subrange(0, n as int) =~= all);
    while i < n
        invariant
            n == assets@.len(),
            all == assets_view(assets@),
            i <= n,
            find_asset_url_spec(all) == find_asset_url_spec(all.subrange(i as int, n as int)),
        decreases n - i,
    {
        let a = &assets[i];
        let ghost rest = all.subrange(i as int, n as int);
        assert(rest[0] == asset_view(assets@[i as int]));
        let is_exe = match &a.name {
            Some(name) => str_eq(name.as_str(), ASSET_NAME),
            None => false,
        };
        if is_exe {
            return match &a.browser_download_url {
                Some(u) => Some(u.clone()),
                None => None,
            };
        }
        assert(rest.drop_first() =~= all.subrange(i + 1, n as int));
        i = i + 1;
    }
    assert(all.subrange(n as int, n as int).len() == 0);
    None
}

/// Decides what the upgrade command does, from the latest release and the
/// installed version.
pub fn plan_upgrade(release: &ReleaseInfo, current_version: &str) -> (r: Result<UpgradePlan, UpgradeError>)
    ensures
        plan_view(r) == plan_upgrade_spec(
            opt_string_view(release.tag_name),
            match release.assets {
                Some(v) => Some(assets_view(v@)),
                None => None,
            },
            current_version@,
        ),
{
    let tag = match &release.tag_name {
        Some(t) => t,
        None => return Err(UpgradeError::NoTagName),
    };
    let latest = trim_leading_v(tag.as_str());
    if str_eq(latest.as_str(), current_version) {
        return Ok(UpgradePlan::UpToDate);
    }
    let assets = match &release.assets {
        Some(a) => a,
        None => return Err(UpgradeError::NoAssets),
    };
    match find_asset_url(assets) {
        None => Err(UpgradeError::AssetNotFound),
        Some(url) => Ok(UpgradePlan::Upgrade { latest_version: latest, download_url: url }),
    }
}

/// What the upgrade command tells once the program has been replaced.
#[derive(Debug, Clone, Copy, PartialEq, Eq, Structural)]
pub enum UpgradeFinish {
    /// The service was running: start it again.
    RestartService,
    /// The service is installed but was not running: leave it stopped.
    LeaveStopped,
    /// The service is not installed: only the program was replaced.
    NotInstalled,
}

/// What to do with the service after the upgrade, whether or not the new
/// program could be put in place: a service that was running is started again
/// either way, so a failed upgrade leaves it as it was.
pub fn upgrade_finish(was_running: bool, installed: bool) -> (r: UpgradeFinish)
    ensures
        r == (if was_running {
            UpgradeFinish::RestartService
        } else if installed {
            UpgradeFinish::LeaveStopped
        } else {
            UpgradeFinish::NotInstalled
        }),
{
    if was_running {
        UpgradeFinish::RestartService
    } else if installed {
        UpgradeFinish::LeaveStopped
    } else {
        UpgradeFinish::NotInstalled
    }
}

/// The next step while waiting for the service to stop.
#[derive(Debug, Clone, Copy, PartialEq, Eq, Structural)]
pub enum StopWait {
    /// The service has stopped.
    Stopped,
    /// Pause `STOP_WAIT_INTERVAL_MS`, then ask again.
    PauseAndAskAgain,
    /// Pause, then give up: the service did not stop in time.
    PauseAndGiveUp,
}

/// The step after the `polls`-th question (counted from 1), given its answer.
/// At most `STOP_WAIT_POLLS` questions are asked, each followed by a pause.
pub fn stop_wait_step(polls: u32, stopped: bool) -> (r: StopWait)
    ensures
        r == (if stopped {
            StopWait::Stopped
        } else if polls < STOP_WAIT_POLLS {
            StopWait::PauseAndAskAgain
        } else {
            StopWait::PauseAndGiveUp
        }),
{
    if stopped {
        StopWait::Stopped
    } else if polls < STOP_WAIT_POLLS {
        StopWait::PauseAndAskAgain
    } else {
        StopWait::PauseAndGiveUp
    }
}

/// An up-to-date installation is never replaced.
pub proof fn lemma_up_to_date_never_downloads(
    tag: Seq<char>,
    assets: Option<Seq<(Option<Seq<char>>, Option<Seq<char>>)>>,
    current: Seq<char>,
)
    requires
        trim_v_spec(tag) == current,
    ensures
        plan_upgrade_spec(Some(tag), assets, current) == Ok::<
            Option<(Seq<char>, Seq<char>)>,
            UpgradeError,
        >(None),
{
}

/// A planned upgrade installs a version other than the installed one, from the
/// address of an asset named `breeze-wh.exe`.
pub proof fn lemma_upgrade_uses_named_asset(
    tag: Option<Seq<char>>,
    assets: Option<Seq<(Option<Seq<char>>, Option<Seq<char>>)>>,
    current: Seq<char>,
)
    requires
        plan_upgrade_spec(tag, assets, current) matches Ok(Some(_)),
    ensures
        plan_upgrade_spec(tag, assets, current) matches Ok(Some((latest, url))) && latest != current
            && exists|i: int|
            0 <= i < assets.unwrap().len() && #[trigger] assets.unwrap()[i] == (
                Some(ASSET_NAME@),
                Some(url),
            ),
{
    let a = assets.unwrap();
    lemma_found_url_is_named(a);
}

/// The address that the search finds belongs to an asset named `breeze-wh.exe`.
pub proof fn lemma_found_url_is_named(assets: Seq<(Option<Seq<char>>, Option<Seq<char>>)>)
    ensures
        find_asset_url_spec(assets) matches Some(url) ==> exists|i: int|
            0 <= i < assets.len() && #[trigger] assets[i] == (Some(ASSET_NAME@), Some(url)),
    decreases assets.len(),
{
    if assets.len() > 0 {
        if assets[0].0 == Some(ASSET_NAME@) {
            if let Some(url) = assets[0].1 {
                assert(assets[0] == (Some(ASSET_NAME@), Some(url)));
            }
        } else {
            lemma_found_url_is_named(assets.drop_first());
            if let Some(url) = find_asset_url_spec(assets) {
                let k = choose|k: int|
                    0 <= k < assets.drop_first().len() && #[trigger] assets.drop_first()[k] == (
                        Some(ASSET_NAME@),
                        Some(url),
                    );
                assert(assets[k + 1] == (Some(ASSET_NAME@), Some(url)));
            }
        }
    }
}

/// The version read from a tag never begins with `v`.
pub proof fn lemma_trimmed_version_has_no_v(s: Seq<char>)
    ensures
        trim_v_spec(s).len() > 0 ==> trim_v_spec(s)[0] != 'v',
    decreases s.len(),
{
    if s.len() > 0 && s[0] == 'v' {
        lemma_trimmed_version_has_no_v(s.drop_first());
    }
}

/// The first argument of a list, if any.
pub open spec fn first_arg(args: Seq<Seq<char>>) -> Option<Seq<char>> {
    if args.len() > 0 {
        Some(args[0])
    } else {
        None
    }
}

/// The elevated copy of the program runs the same command as the one that asked
/// for elevation: it reads its arguments back from the quoted command line, and
/// once `--output-file <path>` is taken off them it holds exactly the arguments
/// given, whose first one selects the same mode (for arguments without such a
/// flag of their own), and the output path.
pub proof fn lemma_elevated_child_runs_same_command(args: Seq<Seq<char>>, path: Seq<char>)
    requires
        !args.contains(output_file_flag()),
    ensures
        extract_spec(parse_command_line(command_line_spec(args + seq![output_file_flag(), path])))
            == (Some(path), args),
        invocation_spec(
            first_arg(
                extract_spec(
                    parse_command_line(command_line_spec(args + seq![output_file_flag(), path])),
                ).1,
            ),
        ) == invocation_spec(first_arg(args)),
{
    lemma_command_line_round_trip(args + seq![output_file_flag(), path]);
    crate::elevation::lemma_extract_recovers_appended(args, path);
}

/// The command line that the service builds for the helper selects the helper
/// mode: its argument after the program path is `helper`.
pub proof fn lemma_helper_command_selects_helper()
    ensures
        invocation_spec(Some("helper"@)) == Invocation::Helper,
{
    reveal_strlit("helper");
    reveal_strlit("service");
    assert("helper"@ != "service"@) by {
        assert("helper"@[0] != "service"@[0]);
    }
}

/// Each command is selected by exactly its own names, and nothing else selects it.
pub proof fn lemma_command_names(a: Seq<char>)
    ensures
        command_spec(Some(a)) == Command::Version <==> (a == "--version"@ || a == "-V"@ || a
            == "version"@),
        command_spec(Some(a)) == Command::Install <==> a == "install"@,
        command_spec(Some(a)) == Command::Uninstall <==> a == "uninstall"@,
        command_spec(Some(a)) == Command::Start <==> a == "start"@,
        command_spec(Some(a)) == Command::Stop <==> a == "stop"@,
        command_spec(Some(a)) == Command::Status <==> a == "status"@,
        command_spec(Some(a)) == Command::Upgrade <==> a == "upgrade"@,
{
    reveal_strlit("--version");
    reveal_strlit("-V");
    reveal_strlit("version");
    reveal_strlit("install");
    reveal_strlit("uninstall");
    reveal_strlit("start");
    reveal_strlit("stop");
    reveal_strlit("status");
    reveal_strlit("upgrade");
    assert("install"@[0] != "--version"@[0] && "install"@[0] != "-V"@[0] && "install"@[0] != "version"@[0]);
    assert("uninstall"@[0] != "--version"@[0] && "uninstall"@[0] != "-V"@[0] && "uninstall"@[0] != "version"@[0] && "uninstall"@[0] != "install"@[0]);
    assert("start"@[0] != "--version"@[0] && "start"@[0] != "-V"@[0] && "start"@[0] != "version"@[0] && "start"@[0] != "install"@[0] && "start"@[0] != "uninstall"@[0]);
    assert("stop"@.len() != "start"@.len());
    assert("stop"@[0] != "--version"@[0] && "stop"@[0] != "-V"@[0] && "stop"@[0] != "version"@[0] && "stop"@[0] != "install"@[0] && "stop"@[0] != "uninstall"@[0]);
    assert("status"@.len() != "start"@.len() && "status"@.len() != "stop"@.len());
    assert("status"@[0] != "--version"@[0] && "status"@[0] != "-V"@[0] && "status"@[0] != "version"@[0] && "status"@[0] != "install"@[0] && "status"@[0] != "uninstall"@[0]);
    assert("upgrade"@[0] != "--version"@[0] && "upgrade"@[0] != "-V"@[0] && "upgrade"@[0] != "version"@[0] && "upgrade"@[0] != "install"@[0] && "upgrade"@[0] != "start"@[0] && "upgrade"@[0] != "stop"@[0] && "upgrade"@[0] != "status"@[0]);
    assert("upgrade"@[1] != "uninstall"@[1]);
}

/// Elevation is asked for exactly the commands that change the service
/// (install, uninstall, start, stop, upgrade), and always for the command that
/// the argument names: printing the version, the status or the usage never asks.
pub proof fn lemma_elevation_only_for_service_changes(first: Option<Seq<char>>)
    requires
        first != Some("service"@),
        first != Some("helper"@),
    ensures
        invocation_spec(first) matches Invocation::Elevated(c) ==> c == command_spec(first) && (c
            == Command::Install || c == Command::Uninstall || c == Command::Start || c
            == Command::Stop || c == Command::Upgrade),
        (command_spec(first) == Command::Install || command_spec(first) == Command::Uninstall
            || command_spec(first) == Command::Start || command_spec(first) == Command::Stop
            || command_spec(first) == Command::Upgrade) ==> invocation_spec(first)
            == Invocation::Elevated(command_spec(first)),
        (command_spec(first) == Command::Version || command_spec(first) == Command::Status
            || command_spec(first) == Command::Usage) ==> invocation_spec(first)
            == Invocation::Direct(command_spec(first)),
{
}

/// `service` and `helper` select the internal modes and nothing else does.
pub proof fn lemma_internal_modes(first: Option<Seq<char>>)
    ensures
        invocation_spec(first) == Invocation::Service <==> first == Some("service"@),
        invocation_spec(first) == Invocation::Helper <==> first == Some("helper"@),
{
    lemma_helper_command_selects_helper();
}

/// The version read from a tag is the tag with all its leading `v`s removed:
/// the tag is some number of `v`s followed by it, and it does not begin with `v`.
pub proof fn lemma_trim_v_shape(t: Seq<char>)
    ensures
        trim_v_spec(t).len() <= t.len(),
        t =~= Seq::new((t.len() - trim_v_spec(t).len()) as nat, |i: int| 'v') + trim_v_spec(t),
        trim_v_spec(t).len() > 0 ==> trim_v_spec(t)[0] != 'v',
    decreases t.len(),
{
    if t.len() > 0 && t[0] == 'v' {
        lemma_trim_v_shape(t.drop_first());
        let r = trim_v_spec(t);
        let k = (t.len() - r.len()) as nat;
        assert(Seq::new(k, |i: int| 'v') =~= seq!['v'] + Seq::new((k - 1) as nat, |i: int| 'v'));
        assert(t =~= seq![t[0]] + t.drop_first());
    } else {
        assert(Seq::new(0nat, |i: int| 'v') + t =~= t);
    }
}

/// The search finds the address of the first asset named `breeze-wh.exe`
/// (none when that asset has no address), and nothing when no asset has the name.
pub proof fn lemma_find_asset_first_named(assets: Seq<(Option<Seq<char>>, Option<Seq<char>>)>)
    ensures
        (forall|j: int| 0 <= j < assets.len() ==> (#[trigger] assets[j]).0 != Some(ASSET_NAME@))
            ==> find_asset_url_spec(assets) is None,
        forall|i: int|
            0 <= i < assets.len() && (#[trigger] assets[i]).0 == Some(ASSET_NAME@) && (forall|j: int|
                0 <= j < i ==> (#[trigger] assets[j]).0 != Some(ASSET_NAME@)) ==> find_asset_url_spec(
                assets,
            ) == assets[i].1,
    decreases assets.len(),
{
    if assets.len() > 0 {
        let rest = assets.drop_first();
        lemma_find_asset_first_named(rest);
        assert forall|i: int|
            0 <= i < assets.len() && (#[trigger] assets[i]).0 == Some(ASSET_NAME@) && (forall|j: int|
                0 <= j < i ==> (#[trigger] assets[j]).0 != Some(ASSET_NAME@)) implies find_asset_url_spec(
            assets,
        ) == assets[i].1 by {
            if i > 0 {
                assert(assets[0].0 != Some(ASSET_NAME@));
                assert(rest[i - 1] == assets[i]);
                assert forall|j: int| 0 <= j < i - 1 implies (#[trigger] rest[j]).0 != Some(ASSET_NAME@) by {
                    assert(rest[j] == assets[j + 1]);
                }
            }
        }
        if forall|j: int| 0 <= j < assets.len() ==> (#[trigger] assets[j]).0 != Some(ASSET_NAME@) {
            assert(assets[0].0 != Some(ASSET_NAME@));
            assert forall|j: int| 0 <= j < rest.len() implies (#[trigger] rest[j]).0 != Some(ASSET_NAME@) by {
                assert(rest[j] == assets[j + 1]);
            }
        }
    }
}

/// The upgrade is skipped as up to date exactly when the tag, without its
/// leading `v`s, is the installed version; a planned upgrade installs that
/// version.
pub proof fn lemma_upgrade_decided_by_version(
    tag: Seq<char>,
    assets: Option<Seq<(Option<Seq<char>>, Option<Seq<char>>)>>,
    current: Seq<char>,
)
    ensures
        plan_upgrade_spec(Some(tag), assets, current) == Ok::<
            Option<(Seq<char>, Seq<char>)>,
            UpgradeError,
        >(None) <==> trim_v_spec(tag) == current,
        plan_upgrade_spec(Some(tag), assets, current) matches Ok(Some((latest, _))) ==> latest
            == trim_v_spec(tag) && latest != current,
{
}

/// A release whose tag (without its leading `v`s) differs from the installed
/// version is installed, from the address that the asset search finds.
pub proof fn lemma_newer_release_installed(
    tag: Seq<char>,
    assets: Seq<(Option<Seq<char>>, Option<Seq<char>>)>,
    url: Seq<char>,
    current: Seq<char>,
)
    requires
        trim_v_spec(tag) != current,
        find_asset_url_spec(assets) == Some(url),
    ensures
        plan_upgrade_spec(Some(tag), Some(assets), current) == Ok::<
            Option<(Seq<char>, Seq<char>)>,
            UpgradeError,
        >(Some((trim_v_spec(tag), url))),
{
}

/// The release information is refused only for what it lacks: no tag, then (for
/// a version other than the installed one) no asset list, then no address for
/// the first asset named `breeze-wh.exe`.
pub proof fn lemma_upgrade_errors(
    tag: Option<Seq<char>>,
    assets: Option<Seq<(Option<Seq<char>>, Option<Seq<char>>)>>,
    current: Seq<char>,
)
    ensures
        plan_upgrade_spec(tag, assets, current) == Err::<Option<(Seq<char>, Seq<char>)>, UpgradeError>(
            UpgradeError::NoTagName,
        ) <==> tag is None,
        plan_upgrade_spec(tag, assets, current) == Err::<Option<(Seq<char>, Seq<char>)>, UpgradeError>(
            UpgradeError::NoAssets,
        ) <==> (tag is Some && trim_v_spec(tag.unwrap()) != current && assets is None),
        plan_upgrade_spec(tag, assets, current) == Err::<Option<(Seq<char>, Seq<char>)>, UpgradeError>(
            UpgradeError::AssetNotFound,
        ) <==> (tag is Some && trim_v_spec(tag.unwrap()) != current && assets is Some
            && find_asset_url_spec(assets.unwrap()) is None),
{
}

/// `status` prints a different label for each state.
pub proof fn lemma_state_labels_distinct(a: ServiceStateKind, b: ServiceStateKind)
    ensures
        state_label_spec(a) == state_label_spec(b) <==> a == b,
{
    reveal_strlit("Stopped");
    reveal_strlit("Start Pending");
    reveal_strlit("Stop Pending");
    reveal_strlit("Running");
    reveal_strlit("Continue Pending");
    reveal_strlit("Pause Pending");
    reveal_strlit("Paused");
    if a != b {
        let x = state_label_spec(a);
        let y = state_label_spec(b);
        if x.len() == y.len() {
            assert(x[0] != y[0] || x[4] != y[4] || x[5] != y[5] || x[6] != y[6]);
        }
    }
}

} // verus!
