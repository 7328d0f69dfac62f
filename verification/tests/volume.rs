use flecs_core::manifest::mount::VolumeMount;
use flecs_core::volume::{
    temporary_volume_container, ExportPhase, ExportVolume, ExportVolumeAction, ExportVolumeEvent,
    ImportPhase, ImportVolume, ImportVolumeAction, ImportVolumeEvent, VolumeCreateOptions,
};

fn import() -> ImportVolume {
    ImportVolume::new(
        "data".to_string(),
        "busybox".to_string(),
        "/backup/data.tar".to_string(),
        "/var/lib/app/data".to_string(),
    )
}

#[test]
fn temporary_container_mounts_the_volume_without_network() {
    let c = temporary_volume_container(
        "busybox".to_string(),
        "data".to_string(),
        "/var/lib/app/data".to_string(),
    );
    assert_eq!(c.image, "busybox");
    assert_eq!(c.volumes, vec!["data:/var/lib/app/data".to_string()]);
    assert!(c.network_disabled);
    assert_eq!(
        c.mounts,
        vec![VolumeMount {
            name: "data".to_string(),
            container_path: "/var/lib/app/data".to_string(),
        }]
    );
}

#[test]
fn import_refuses_missing_or_odd_archives_before_any_request() {
    let mut i = import();
    assert_eq!(
        i.step(ImportVolumeEvent::Start {
            path_exists: false,
            path_is_file: false
        }),
        ImportVolumeAction::Fail(
            "Could not import volume data, path does not exist: \"/backup/data.tar\"".to_string()
        )
    );
    assert_eq!(i.phase, ImportPhase::Finished);
    let mut i = import();
    assert_eq!(
        i.step(ImportVolumeEvent::Start {
            path_exists: true,
            path_is_file: false
        }),
        ImportVolumeAction::Fail(
            "Could not import volume data, path is not a regular file: \"/backup/data.tar\""
                .to_string()
        )
    );
}

#[test]
fn import_replaces_an_existing_volume_and_uploads() {
    let mut i = import();
    assert_eq!(
        i.step(ImportVolumeEvent::Start {
            path_exists: true,
            path_is_file: true
        }),
        ImportVolumeAction::InspectVolume("data".to_string())
    );
    assert_eq!(
        i.step(ImportVolumeEvent::Inspected(Ok(true))),
        ImportVolumeAction::RemoveVolume("data".to_string())
    );
    match i.step(ImportVolumeEvent::Removed(Ok(()))) {
        ImportVolumeAction::Create { volume, container } => {
            assert_eq!(
                volume,
                Some(VolumeCreateOptions {
                    name: "data".to_string(),
                    driver: "local".to_string()
                })
            );
            assert_eq!(container.volumes, vec!["data:/var/lib/app/data".to_string()]);
        }
        other => panic!("unexpected action {other:?}"),
    }
    assert!(i.accepts(&ImportVolumeEvent::Created {
        volume: Ok("v".to_string()),
        container: Ok("c".to_string())
    }));
    assert!(!i.accepts(&ImportVolumeEvent::Uploaded(Ok(()))));
    assert_eq!(
        i.step(ImportVolumeEvent::Created {
            volume: Ok("data".to_string()),
            container: Ok("tmp-1".to_string())
        }),
        ImportVolumeAction::Upload {
            container: "tmp-1".to_string(),
            src: "/backup/data.tar".to_string(),
            dst: "/var/lib/app".to_string(),
        }
    );
    assert_eq!(
        i.step(ImportVolumeEvent::Uploaded(Ok(()))),
        ImportVolumeAction::RemoveContainer {
            container: "tmp-1".to_string(),
            then: Ok("data".to_string())
        }
    );
    assert_eq!(
        i.step(ImportVolumeEvent::ContainerRemoved(Err("busy".to_string()))),
        ImportVolumeAction::Done("data".to_string())
    );
}

#[test]
fn import_volume_failure_still_removes_the_container() {
    let mut i = import();
    i.step(ImportVolumeEvent::Start {
        path_exists: true,
        path_is_file: true,
    });
    match i.step(ImportVolumeEvent::Inspected(Err("engine down".to_string()))) {
        ImportVolumeAction::Create { volume, .. } => assert_eq!(volume, None),
        other => panic!("unexpected action {other:?}"),
    }
    assert_eq!(
        i.step(ImportVolumeEvent::Created {
            volume: Ok("ignored".to_string()),
            container: Ok("tmp-2".to_string())
        }),
        ImportVolumeAction::RemoveContainer {
            container: "tmp-2".to_string(),
            then: Err("engine down".to_string())
        }
    );
    assert_eq!(
        i.step(ImportVolumeEvent::ContainerRemoved(Ok(()))),
        ImportVolumeAction::Fail("engine down".to_string())
    );
}

#[test]
fn import_container_failure_fails() {
    let mut i = import();
    i.step(ImportVolumeEvent::Start {
        path_exists: true,
        path_is_file: true,
    });
    i.step(ImportVolumeEvent::Inspected(Ok(false)));
    assert_eq!(
        i.step(ImportVolumeEvent::Created {
            volume: Ok("data".to_string()),
            container: Err("no image".to_string())
        }),
        ImportVolumeAction::Fail("no image".to_string())
    );
}

fn export() -> ExportVolume {
    ExportVolume::new(
        "data".to_string(),
        "/export/data.tar".to_string(),
        "/var/lib/app/data".to_string(),
        "busybox".to_string(),
    )
}

#[test]
fn export_of_missing_volume_fails_before_any_container() {
    let mut e = export();
    assert_eq!(
        e.step(ExportVolumeEvent::Start),
        ExportVolumeAction::InspectVolume("data".to_string())
    );
    assert_eq!(
        e.step(ExportVolumeEvent::Inspected(Ok(false))),
        ExportVolumeAction::Fail("Volume data does not exist".to_string())
    );
    assert_eq!(e.phase, ExportPhase::Finished);
}

#[test]
fn export_copies_through_a_temporary_container() {
    let mut e = export();
    e.step(ExportVolumeEvent::Start);
    match e.step(ExportVolumeEvent::Inspected(Ok(true))) {
        ExportVolumeAction::CreateContainer(c) => {
            assert_eq!(c.volumes, vec!["data:/var/lib/app/data".to_string()])
        }
        other => panic!("unexpected action {other:?}"),
    }
    assert_eq!(
        e.step(ExportVolumeEvent::ContainerCreated(Ok("tmp".to_string()))),
        ExportVolumeAction::Download {
            container: "tmp".to_string(),
            src: "/var/lib/app/data".to_string(),
            dst: "/export/data.tar".to_string(),
        }
    );
    assert_eq!(
        e.step(ExportVolumeEvent::Downloaded(Ok(()))),
        ExportVolumeAction::RemoveContainer("tmp".to_string())
    );
    assert_eq!(
        e.step(ExportVolumeEvent::ContainerRemoved(Ok(()))),
        ExportVolumeAction::Done
    );
}
