use breeze_wh::cli::{
    checks_service_before_elevation, classify_invocation, counts_as_running, parse_command,
    plan_upgrade, state_label, stop_before_delete, stop_wait_step, trim_leading_v, upgrade_finish,
    AssetInfo, Command, Invocation, ReleaseInfo, ServiceStateKind, StopWait, UpgradeError,
    UpgradeFinish, UpgradePlan, ASSET_NAME, STOP_WAIT_POLLS,
};

#[test]
fn commands_by_name() {
    assert_eq!(parse_command(Some("--version")), Command::Version);
    assert_eq!(parse_command(Some("-V")), Command::Version);
    assert_eq!(parse_command(Some("version")), Command::Version);
    assert_eq!(parse_command(Some("install")), Command::Install);
    assert_eq!(parse_command(Some("uninstall")), Command::Uninstall);
    assert_eq!(parse_command(Some("start")), Command::Start);
    assert_eq!(parse_command(Some("stop")), Command::Stop);
    assert_eq!(parse_command(Some("status")), Command::Status);
    assert_eq!(parse_command(Some("upgrade")), Command::Upgrade);
    assert_eq!(parse_command(Some("Install")), Command::Usage);
    assert_eq!(parse_command(Some("help")), Command::Usage);
    assert_eq!(parse_command(None), Command::Usage);
}

#[test]
fn invocation_modes() {
    assert_eq!(classify_invocation(Some("service")), Invocation::Service);
    assert_eq!(classify_invocation(Some("helper")), Invocation::Helper);
    assert_eq!(classify_invocation(Some("install")), Invocation::Elevated(Command::Install));
    assert_eq!(classify_invocation(Some("uninstall")), Invocation::Elevated(Command::Uninstall));
    assert_eq!(classify_invocation(Some("start")), Invocation::Elevated(Command::Start));
    assert_eq!(classify_invocation(Some("stop")), Invocation::Elevated(Command::Stop));
    assert_eq!(classify_invocation(Some("upgrade")), Invocation::Elevated(Command::Upgrade));
    assert_eq!(classify_invocation(Some("status")), Invocation::Direct(Command::Status));
    assert_eq!(classify_invocation(Some("-V")), Invocation::Direct(Command::Version));
    assert_eq!(classify_invocation(Some("x")), Invocation::Direct(Command::Usage));
    assert_eq!(classify_invocation(None), Invocation::Direct(Command::Usage));
}

#[test]
fn existence_check_before_elevation() {
    assert!(checks_service_before_elevation(Command::Start));
    assert!(checks_service_before_elevation(Command::Stop));
    assert!(checks_service_before_elevation(Command::Uninstall));
    assert!(!checks_service_before_elevation(Command::Install));
    assert!(!checks_service_before_elevation(Command::Upgrade));
}

#[test]
fn status_labels() {
    assert_eq!(state_label(ServiceStateKind::Stopped), "Stopped");
    assert_eq!(state_label(ServiceStateKind::StartPending), "Start Pending");
    assert_eq!(state_label(ServiceStateKind::StopPending), "Stop Pending");
    assert_eq!(state_label(ServiceStateKind::Running), "Running");
    assert_eq!(state_label(ServiceStateKind::ContinuePending), "Continue Pending");
    assert_eq!(state_label(ServiceStateKind::PausePending), "Pause Pending");
    assert_eq!(state_label(ServiceStateKind::Paused), "Paused");
}

#[test]
fn running_and_stopping_states() {
    assert!(counts_as_running(ServiceStateKind::Running));
    assert!(counts_as_running(ServiceStateKind::StartPending));
    assert!(!counts_as_running(ServiceStateKind::Paused));
    assert!(!counts_as_running(ServiceStateKind::Stopped));
    assert!(!stop_before_delete(ServiceStateKind::Stopped));
    assert!(stop_before_delete(ServiceStateKind::Running));
    assert!(stop_before_delete(ServiceStateKind::StopPending));
}

#[test]
fn trim_v_prefix() {
    assert_eq!(trim_leading_v("v0.1.4"), "0.1.4");
    assert_eq!(trim_leading_v("vv1"), "1");
    assert_eq!(trim_leading_v("1.0"), "1.0");
    assert_eq!(trim_leading_v("v"), "");
    assert_eq!(trim_leading_v("1v"), "1v");
}

fn asset(name: Option<&str>, url: Option<&str>) -> AssetInfo {
    AssetInfo { name: name.map(|s| s.to_string()), browser_download_url: url.map(|s| s.to_string()) }
}

fn release(tag: Option<&str>, assets: Option<Vec<AssetInfo>>) -> ReleaseInfo {
    ReleaseInfo { tag_name: tag.map(|s| s.to_string()), assets }
}

#[test]
fn up_to_date_release() {
    let r = release(Some("v0.1.4"), None);
    assert!(matches!(plan_upgrade(&r, "0.1.4"), Ok(UpgradePlan::UpToDate)));
}

#[test]
fn newer_release_is_planned() {
    let r = release(
        Some("v0.2.0"),
        Some(vec![asset(Some("notes.txt"), Some("u0")), asset(Some(ASSET_NAME), Some("https://x/breeze-wh.exe"))]),
    );
    match plan_upgrade(&r, "0.1.4") {
        Ok(UpgradePlan::Upgrade { latest_version, download_url }) => {
            assert_eq!(latest_version, "0.2.0");
            assert_eq!(download_url, "https://x/breeze-wh.exe");
        }
        _ => panic!("expected an upgrade"),
    }
}

#[test]
fn upgrade_errors() {
    assert!(matches!(plan_upgrade(&release(None, None), "0.1.4"), Err(UpgradeError::NoTagName)));
    assert!(matches!(plan_upgrade(&release(Some("v0.2.0"), None), "0.1.4"), Err(UpgradeError::NoAssets)));
    assert!(matches!(
        plan_upgrade(&release(Some("v0.2.0"), Some(vec![asset(Some("other"), Some("u"))])), "0.1.4"),
        Err(UpgradeError::AssetNotFound)
    ));
    // the first asset with the name has no address: not found, though a later one has one
    assert!(matches!(
        plan_upgrade(
            &release(Some("v0.2.0"), Some(vec![asset(Some(ASSET_NAME), None), asset(Some(ASSET_NAME), Some("u"))])),
            "0.1.4"
        ),
        Err(UpgradeError::AssetNotFound)
    ));
    assert_eq!(UpgradeError::NoTagName.message(), "latest release has no tag_name");
    assert_eq!(UpgradeError::NoAssets.message(), "release has no assets");
    assert_eq!(UpgradeError::AssetNotFound.message(), "breeze-wh.exe not found in release assets");
}

#[test]
fn after_upgrade() {
    assert_eq!(upgrade_finish(true, true), UpgradeFinish::RestartService);
    assert_eq!(upgrade_finish(false, true), UpgradeFinish::LeaveStopped);
    assert_eq!(upgrade_finish(false, false), UpgradeFinish::NotInstalled);
}

#[test]
fn waiting_for_stop() {
    assert_eq!(stop_wait_step(1, true), StopWait::Stopped);
    assert_eq!(stop_wait_step(1, false), StopWait::PauseAndAskAgain);
    assert_eq!(stop_wait_step(STOP_WAIT_POLLS - 1, false), StopWait::PauseAndAskAgain);
    assert_eq!(stop_wait_step(STOP_WAIT_POLLS, false), StopWait::PauseAndGiveUp);
    assert_eq!(stop_wait_step(STOP_WAIT_POLLS, true), StopWait::Stopped);
}

#[test]
fn waiting_past_the_limit_gives_up() {
    assert_eq!(stop_wait_step(STOP_WAIT_POLLS + 1, false), StopWait::PauseAndGiveUp);
    assert_eq!(stop_wait_step(0, false), StopWait::PauseAndAskAgain);
}
