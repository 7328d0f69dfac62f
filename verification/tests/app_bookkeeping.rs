use flecs_core::app::{
    begin_install, finish_install, finish_uninstall, install_step, uninstall_step, AppData, AppStatus,
    InstallFailed, InstallStep, UninstallAction, UninstallEvent,
};

fn data(deployment: &str, id: Option<&str>) -> AppData {
    AppData {
        desired: AppStatus::Unknown,
        id: id.map(str::to_string),
        deployment_id: deployment.to_string(),
    }
}

#[test]
fn install_marks_every_deployment() {
    let mut deployments = vec![data("a", None), data("b", Some("app-b"))];
    begin_install(&mut deployments);
    assert!(deployments.iter().all(|d| d.desired == AppStatus::Installed));
    assert_eq!(deployments[1].id.as_deref(), Some("app-b"));
}

#[test]
fn install_step_checks_known_ids_first() {
    assert_eq!(install_step(&None, None), InstallStep::Install);
    assert_eq!(
        install_step(&Some("x".to_string()), None),
        InstallStep::CheckInstalled("x".to_string())
    );
    assert_eq!(
        install_step(&Some("x".to_string()), Some(true)),
        InstallStep::AlreadyInstalled("x".to_string())
    );
    assert_eq!(install_step(&Some("x".to_string()), Some(false)), InstallStep::Install);
}

#[test]
fn install_keeps_ids_of_successful_deployments() {
    let mut deployments = vec![data("a", None), data("b", Some("old")), data("c", Some("keep"))];
    let results = vec![
        ("a".to_string(), Ok("app-a".to_string())),
        ("b".to_string(), Err("failed".to_string())),
        ("c".to_string(), Ok("new-c".to_string())),
        ("unknown".to_string(), Ok("lost".to_string())),
    ];
    assert_eq!(finish_install(&mut deployments, results), Ok(()));
    assert_eq!(deployments[0].id.as_deref(), Some("app-a"));
    assert_eq!(deployments[1].id.as_deref(), Some("old"));
    assert_eq!(deployments[2].id.as_deref(), Some("new-c"));
}

#[test]
fn install_fails_when_no_deployment_took_the_app() {
    let mut deployments = vec![data("a", None), data("b", None)];
    let results = vec![
        ("a".to_string(), Err("failed".to_string())),
        ("elsewhere".to_string(), Ok("app".to_string())),
    ];
    assert_eq!(
        finish_install(&mut deployments, results),
        Err(InstallFailed { deployments: 2 })
    );
    let mut none: Vec<AppData> = vec![];
    assert_eq!(finish_install(&mut none, vec![]), Ok(()));
}

#[test]
fn uninstall_from_deployment_without_id_is_skipped() {
    let mut d = data("dep-1", None);
    assert_eq!(
        uninstall_step(&mut d, UninstallEvent::Start),
        UninstallAction::Skip("App is not installed on deployment dep-1".to_string())
    );
    assert_eq!(d.desired, AppStatus::NotInstalled);
}

#[test]
fn uninstall_from_deployment_walks_through_check_and_removal() {
    let mut d = data("dep-1", Some("app-7"));
    assert_eq!(
        uninstall_step(&mut d, UninstallEvent::Start),
        UninstallAction::CheckInstalled("app-7".to_string())
    );
    assert_eq!(
        uninstall_step(&mut d, UninstallEvent::Checked(Ok(true))),
        UninstallAction::Uninstall("app-7".to_string())
    );
    assert_eq!(
        uninstall_step(&mut d, UninstallEvent::Uninstalled(Ok(()))),
        UninstallAction::Done
    );
    assert_eq!(
        uninstall_step(&mut d, UninstallEvent::Uninstalled(Err("busy".to_string()))),
        UninstallAction::Fail("busy".to_string())
    );
    assert_eq!(
        uninstall_step(&mut d, UninstallEvent::Checked(Ok(false))),
        UninstallAction::Skip("App is not installed on deployment dep-1".to_string())
    );
    assert_eq!(
        uninstall_step(&mut d, UninstallEvent::Checked(Err("down".to_string()))),
        UninstallAction::Fail("down".to_string())
    );
    assert_eq!(d.desired, AppStatus::NotInstalled);
    assert_eq!(d.id.as_deref(), Some("app-7"));
}

#[test]
fn uninstall_keeps_failed_deployments() {
    assert_eq!(
        finish_uninstall(vec![("a".to_string(), Ok(None)), ("b".to_string(), Ok(None))]),
        Ok(())
    );
    let kept = data("b", Some("app-b"));
    let res = finish_uninstall(vec![
        ("a".to_string(), Ok(None)),
        ("b".to_string(), Ok(Some(("busy".to_string(), kept.clone())))),
        ("c".to_string(), Err("crashed".to_string())),
    ]);
    assert_eq!(
        res,
        Err((
            vec![
                "from deployment b: busy".to_string(),
                "from deployment c: crashed".to_string()
            ],
            vec![kept]
        ))
    );
}
