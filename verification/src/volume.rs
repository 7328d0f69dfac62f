//! Moving the data of volumes in and out of a container engine: an archive is imported into
//! a fresh volume through a temporary container, and a volume is exported the same way.
//! Each is a step function: it takes what the engine answered and says what to do next.
use crate::manifest::mount::VolumeMount;
use crate::text::{concat_strings, opt_view, string_from};
use vstd::prelude::*;

verus! {

/// The settings of a volume as a deployment keeps them; volumes have none yet.
#[derive(Debug, Clone, Copy, PartialEq, Eq)]
pub struct VolumeConfig {}

/// The settings a volume is created with.
#[derive(Debug, Clone, PartialEq, Eq)]
pub struct VolumeCreateOptions {
    pub name: String,
    pub driver: String,
}

/// A container that only exists to reach the data of a volume: it runs the image, has the
/// volume mounted and no network.
#[derive(Debug, Clone, PartialEq, Eq)]
pub struct TemporaryContainer {
    pub image: String,
    /// The volumes of the container, each written `<volume>:<path in the container>`.
    pub volumes: Vec<String>,
    pub network_disabled: bool,
    pub mounts: Vec<VolumeMount>,
}

/// The temporary container for the volume `volume`, mounted at `volume_dst`.
pub fn temporary_volume_container(image: String, volume: String, volume_dst: String) -> (res:
    TemporaryContainer)
    ensures
        res.image == image,
        res.volumes@.len() == 1,
        res.volumes@[0]@ == volume@ + ":"@ + volume_dst@,
        res.network_disabled,
        res.mounts@.len() == 1,
        res.mounts@[0].name@ == volume@,
        res.mounts@[0].container_path@ == volume_dst@,
{
    proof {
        reveal_strlit(":");
    }
    let bind = concat_strings(&concat_strings(&volume, &string_from(":")), &volume_dst);
    let mut volumes: Vec<String> = Vec::new();
    volumes.push(bind);
    let mut mounts: Vec<VolumeMount> = Vec::new();
    mounts.push(VolumeMount { name: volume, container_path: volume_dst });
    TemporaryContainer { image, volumes, network_disabled: true, mounts }
}

/// The directory that holds `path`, as `std::path::Path::parent` gives it; `None` for a
/// path without one, such as the root.
pub uninterp spec fn path_parent(path: Seq<char>) -> Option<Seq<char>>;

/// Calls `std::path::Path::parent` on `path` and hands the parent back as text; the
/// contract claims the answer `path_parent` names, which depends on the text alone.
#[verifier::external_body]
fn parent_of(path: &str) -> (res: Option<String>)
    ensures
        opt_view(res) == path_parent(path@),
{
    match std::path::Path::new(path).parent() {
        Some(p) => Some(p.to_string_lossy().into_owned()),
        None => None,
    }
}

/// Where the archive of an import is unpacked: the directory that holds the volume's path
/// in the container, or the root where it has none.
pub open spec fn upload_dir(container_path: Seq<char>) -> Seq<char> {
    match path_parent(container_path) {
        Some(p) => p,
        None => "/"@,
    }
}

/// How far an import has come.
#[derive(Debug, PartialEq, Eq)]
pub enum ImportPhase {
    /// Nothing was done yet.
    Start,
    /// The engine is asked whether the volume exists.
    Inspecting,
    /// The existing volume is being removed.
    RemovingVolume,
    /// The volume and the temporary container are being created; where getting rid of an
    /// existing volume failed already, here is why.
    Creating { volume_error: Option<String> },
    /// The archive is being unpacked into the volume through the container.
    Uploading { volume: String, container: String },
    /// The temporary container is being removed; the import then ends with `then`.
    RemovingContainer { then: Result<String, String> },
    /// The import is over.
    Finished,
}

/// An import of the archive `src` into a new volume `name`, mounted at `container_path` in a
/// temporary container running `image`.
#[derive(Debug, PartialEq, Eq)]
pub struct ImportVolume {
    pub name: String,
    pub image: String,
    pub src: String,
    pub container_path: String,
    pub phase: ImportPhase,
}

/// What the engine and the file system answered during an import.
#[derive(Debug, PartialEq, Eq)]
pub enum ImportVolumeEvent {
    /// Whether the archive exists and is a regular file.
    Start { path_exists: bool, path_is_file: bool },
    /// Whether a volume of the name exists, or why that could not be told.
    Inspected(Result<bool, String>),
    /// The existing volume was removed, or why not.
    Removed(Result<(), String>),
    /// The id of the new volume and that of the temporary container, or why not.
    Created { volume: Result<String, String>, container: Result<String, String> },
    /// The archive was unpacked into the volume, or why not.
    Uploaded(Result<(), String>),
    /// The temporary container was removed, or why not.
    ContainerRemoved(Result<(), String>),
}

/// What to do next during an import.
#[derive(Debug, PartialEq, Eq)]
pub enum ImportVolumeAction {
    /// The import fails with this error.
    Fail(String),
    /// Ask whether a volume of this name exists.
    InspectVolume(String),
    /// Remove the volume of this name.
    RemoveVolume(String),
    /// Create the volume (unless getting rid of the old one failed) and the container.
    Create { volume: Option<VolumeCreateOptions>, container: TemporaryContainer },
    /// Unpack the archive `src` into the directory `dst` of the container.
    Upload { container: String, src: String, dst: String },
    /// Remove the temporary container, then end with `then`.
    RemoveContainer { container: String, then: Result<String, String> },
    /// The import succeeded; this is the id of the volume.
    Done(String),
}

/// The event is the one the import waits for.
pub open spec fn import_accepts(phase: ImportPhase, event: ImportVolumeEvent) -> bool {
    match phase {
        ImportPhase::Start => event is Start,
        ImportPhase::Inspecting => event is Inspected,
        ImportPhase::RemovingVolume => event is Removed,
        ImportPhase::Creating { .. } => event is Created,
        ImportPhase::Uploading { .. } => event is Uploaded,
        ImportPhase::RemovingContainer { .. } => event is ContainerRemoved,
        ImportPhase::Finished => false,
    }
}

/// The message of an import whose archive does not exist; the path stands in double quotes,
/// as `{:?}` writes a path free of quotes, backslashes and control characters.
pub open spec fn missing_archive_text(name: Seq<char>, src: Seq<char>) -> Seq<char> {
    "Could not import volume "@ + name + ", path does not exist: \""@ + src + "\""@
}

/// The message of an import whose archive is no regular file; the path is quoted as above.
pub open spec fn not_a_file_text(name: Seq<char>, src: Seq<char>) -> Seq<char> {
    "Could not import volume "@ + name + ", path is not a regular file: \""@ + src + "\""@
}

/// `action` creates the volume `name` with the local driver, unless `skip_volume`, and the
/// temporary container for it.
pub open spec fn creates(action: ImportVolumeAction, s: ImportVolume, skip_volume: bool) -> bool {
    action matches ImportVolumeAction::Create { volume, container } && (if skip_volume {
        volume is None
    } else {
        volume matches Some(o) && o.name@ == s.name@ && o.driver@ == "local"@
    }) && container.image == s.image && container.network_disabled && container.volumes@.len()
        == 1 && container.volumes@[0]@ == s.name@ + ":"@ + s.container_path@
        && container.mounts@.len() == 1 && container.mounts@[0].name@ == s.name@
        && container.mounts@[0].container_path@ == s.container_path@
}

impl ImportVolume {
    /// An import not yet begun.
    pub fn new(name: String, image: String, src: String, container_path: String) -> (res: Self)
        ensures
            res == (ImportVolume { name, image, src, container_path, phase: ImportPhase::Start }),
    {
        ImportVolume { name, image, src, container_path, phase: ImportPhase::Start }
    }

    /// Whether the event is the one the import waits for.
    pub fn accepts(&self, event: &ImportVolumeEvent) -> (res: bool)
        ensures
            res == import_accepts(self.phase, *event),
    {
        match (&self.phase, event) {
            (ImportPhase::Start, ImportVolumeEvent::Start { .. }) => true,
            (ImportPhase::Inspecting, ImportVolumeEvent::Inspected(_)) => true,
            (ImportPhase::RemovingVolume, ImportVolumeEvent::Removed(_)) => true,
            (ImportPhase::Creating { .. }, ImportVolumeEvent::Created { .. }) => true,
            (ImportPhase::Uploading { .. }, ImportVolumeEvent::Uploaded(_)) => true,
            (ImportPhase::RemovingContainer { .. }, ImportVolumeEvent::ContainerRemoved(_)) => true,
            _ => false,
        }
    }

    fn create_action(&self, skip_volume: bool) -> (res: ImportVolumeAction)
        ensures
            creates(res, *self, skip_volume),
    {
        let volume = if skip_volume {
            None
        } else {
            proof {
                reveal_strlit("local");
            }
            Some(VolumeCreateOptions { name: self.name.clone(), driver: string_from("local") })
        };
        ImportVolumeAction::Create {
            volume,
            container: temporary_volume_container(
                self.image.clone(),
                self.name.clone(),
                self.container_path.clone(),
            ),
        }
    }

    /// One step of the import. The archive must exist and be a regular file before anything
    /// is asked of the engine. An existing volume of the name is removed first; then the
    /// volume is created with the local driver together with the temporary container. With
    /// both, the archive is unpacked into the directory holding the volume's path, the
    /// container removed and the volume's id handed back. Where the volume fails but the
    /// container was made, the container is removed and the volume's error ends the import;
    /// where the container fails, its error does. A failed unpacking ends the import with
    /// its error; a failed removal of the container does not change the outcome.
    pub fn step(&mut self, event: ImportVolumeEvent) -> (res: ImportVolumeAction)
        requires
            import_accepts(old(self).phase, event),
        ensures
            final(self).name == old(self).name,
            final(self).image == old(self).image,
            final(self).src == old(self).src,
            final(self).container_path == old(self).container_path,
            match event {
                ImportVolumeEvent::Start { path_exists, path_is_file } => if !path_exists {
                    res matches ImportVolumeAction::Fail(m) && m@ == missing_archive_text(
                        old(self).name@,
                        old(self).src@,
                    ) && final(self).phase == ImportPhase::Finished
                } else if !path_is_file {
                    res matches ImportVolumeAction::Fail(m) && m@ == not_a_file_text(
                        old(self).name@,
                        old(self).src@,
                    ) && final(self).phase == ImportPhase::Finished
                } else {
                    res matches ImportVolumeAction::InspectVolume(n) && n@ == old(self).name@
                        && final(self).phase == ImportPhase::Inspecting
                },
                ImportVolumeEvent::Inspected(Ok(true)) => res matches ImportVolumeAction::RemoveVolume(
                    n,
                ) && n@ == old(self).name@ && final(self).phase == ImportPhase::RemovingVolume,
                ImportVolumeEvent::Inspected(Ok(false)) | ImportVolumeEvent::Removed(Ok(())) =>
                    creates(res, *old(self), false) && final(self).phase == (ImportPhase::Creating {
                    volume_error: None,
                }),
                ImportVolumeEvent::Inspected(Err(e)) | ImportVolumeEvent::Removed(Err(e)) => creates(
                    res,
                    *old(self),
                    true,
                ) && final(self).phase == (ImportPhase::Creating { volume_error: Some(e) }),
                ImportVolumeEvent::Created { volume, container } => {
                    let volume = match old(self).phase {
                        ImportPhase::Creating { volume_error: Some(e) } => Err(e),
                        _ => volume,
                    };
                    match (volume, container) {
                        (Ok(v), Ok(c)) => res matches ImportVolumeAction::Upload {
                            container: c2,
                            src,
                            dst,
                        } && c2 == c && src == old(self).src && dst@ == upload_dir(
                            old(self).container_path@,
                        ) && final(self).phase == (ImportPhase::Uploading {
                            volume: v,
                            container: c,
                        }),
                        (Err(e), Ok(c)) => res == (ImportVolumeAction::RemoveContainer {
                            container: c,
                            then: Err(e),
                        }) && final(self).phase == (ImportPhase::RemovingContainer {
                            then: Err(e),
                        }),
                        (_, Err(e)) => res == ImportVolumeAction::Fail(e) && final(self).phase
                            == ImportPhase::Finished,
                    }
                },
                ImportVolumeEvent::Uploaded(Ok(())) => match old(self).phase {
                    ImportPhase::Uploading { volume, container } => res == (
                    ImportVolumeAction::RemoveContainer { container, then: Ok(volume) })
                        && final(self).phase == (ImportPhase::RemovingContainer {
                        then: Ok(volume),
                    }),
                    _ => false,
                },
                ImportVolumeEvent::Uploaded(Err(e)) => res == ImportVolumeAction::Fail(e)
                    && final(self).phase == ImportPhase::Finished,
                ImportVolumeEvent::ContainerRemoved(_) => (match old(self).phase {
                    ImportPhase::RemovingContainer { then: Ok(v) } => res == ImportVolumeAction::Done(
                        v,
                    ),
                    ImportPhase::RemovingContainer { then: Err(e) } => res == ImportVolumeAction::Fail(
                        e,
                    ),
                    _ => false,
                }) && final(self).phase == ImportPhase::Finished,
            },
    {
        proof {
            reveal_strlit("Could not import volume ");
            reveal_strlit(", path does not exist: \"");
            reveal_strlit(", path is not a regular file: \"");
            reveal_strlit("\"");
        }
        let mut phase = ImportPhase::Finished;
        std::mem::swap(&mut phase, &mut self.phase);
        match event {
            ImportVolumeEvent::Start { path_exists, path_is_file } => {
                if !path_exists || !path_is_file {
                    let middle = if !path_exists {
                        string_from(", path does not exist: \"")
                    } else {
                        string_from(", path is not a regular file: \"")
                    };
                    let m = concat_strings(
                        &concat_strings(
                            &concat_strings(
                                &concat_strings(&string_from("Could not import volume "), &self.name),
                                &middle,
                            ),
                            &self.src,
                        ),
                        &string_from("\""),
                    );
                    return ImportVolumeAction::Fail(m);
                }
                self.phase = ImportPhase::Inspecting;
                ImportVolumeAction::InspectVolume(self.name.clone())
            },
            ImportVolumeEvent::Inspected(Ok(true)) => {
                self.phase = ImportPhase::RemovingVolume;
                ImportVolumeAction::RemoveVolume(self.name.clone())
            },
            ImportVolumeEvent::Inspected(Ok(false)) | ImportVolumeEvent::Removed(Ok(())) => {
                self.phase = ImportPhase::Creating { volume_error: None };
                self.create_action(false)
            },
            ImportVolumeEvent::Inspected(Err(e)) | ImportVolumeEvent::Removed(Err(e)) => {
                self.phase = ImportPhase::Creating { volume_error: Some(e) };
                self.create_action(true)
            },
            ImportVolumeEvent::Created { volume, container } => {
                let volume = match phase {
                    ImportPhase::Creating { volume_error: Some(e) } => Err(e),
                    _ => volume,
                };
                match (volume, container) {
                    (Ok(v), Ok(c)) => {
                        let dst = match parent_of(self.container_path.as_str()) {
                            Some(p) => p,
                            None => string_from("/"),
                        };
                        let action = ImportVolumeAction::Upload {
                            container: c.clone(),
                            src: self.src.clone(),
                            dst,
                        };
                        self.phase = ImportPhase::Uploading { volume: v, container: c };
                        proof {
                            reveal_strlit("/");
                        }
                        action
                    },
                    (Err(e), Ok(c)) => {
                        self.phase = ImportPhase::RemovingContainer { then: Err(e.clone()) };
                        ImportVolumeAction::RemoveContainer { container: c, then: Err(e) }
                    },
                    (_, Err(e)) => ImportVolumeAction::Fail(e),
                }
            },
            ImportVolumeEvent::Uploaded(Ok(())) => match phase {
                ImportPhase::Uploading { volume, container } => {
                    self.phase = ImportPhase::RemovingContainer { then: Ok(volume.clone()) };
                    ImportVolumeAction::RemoveContainer { container, then: Ok(volume) }
                },
                _ => ImportVolumeAction::Fail(string_from("")),
            },
            ImportVolumeEvent::Uploaded(Err(e)) => ImportVolumeAction::Fail(e),
            ImportVolumeEvent::ContainerRemoved(_) => match phase {
                ImportPhase::RemovingContainer { then: Ok(v) } => ImportVolumeAction::Done(v),
                ImportPhase::RemovingContainer { then: Err(e) } => ImportVolumeAction::Fail(e),
                _ => ImportVolumeAction::Fail(string_from("")),
            },
        }
    }
}

/// How far an export has come.
#[derive(Debug, PartialEq, Eq)]
pub enum ExportPhase {
    /// Nothing was done yet.
    Start,
    /// The engine is asked whether the volume exists.
    Inspecting,
    /// The temporary container is being created.
    CreatingContainer,
    /// The data is being copied out of the container.
    Downloading { container: String },
    /// The temporary container is being removed.
    RemovingContainer,
    /// The export is over.
    Finished,
}

/// An export of the volume `id`, mounted at `container_path` in a temporary container
/// running `image`, into the archive `export_path`.
#[derive(Debug, PartialEq, Eq)]
pub struct ExportVolume {
    pub id: String,
    pub export_path: String,
    pub container_path: String,
    pub image: String,
    pub phase: ExportPhase,
}

/// What the engine answered during an export.
#[derive(Debug, PartialEq, Eq)]
pub enum ExportVolumeEvent {
    /// The export begins.
    Start,
    /// Whether the volume exists, or why that could not be told.
    Inspected(Result<bool, String>),
    /// The id of the temporary container, or why it could not be made.
    ContainerCreated(Result<String, String>),
    /// The data was copied into the archive, or why not.
    Downloaded(Result<(), String>),
    /// The temporary container was removed, or why not.
    ContainerRemoved(Result<(), String>),
}

/// What to do next during an export.
#[derive(Debug, PartialEq, Eq)]
pub enum ExportVolumeAction {
    /// The export fails with this error.
    Fail(String),
    /// Ask whether the volume of this id exists.
    InspectVolume(String),
    /// Create the temporary container.
    CreateContainer(TemporaryContainer),
    /// Copy the path `src` of the container into the archive `dst`.
    Download { container: String, src: String, dst: String },
    /// Remove the temporary container; the export has then succeeded.
    RemoveContainer(String),
    /// The export succeeded.
    Done,
}

/// The event is the one the export waits for.
pub open spec fn export_accepts(phase: ExportPhase, event: ExportVolumeEvent) -> bool {
    match phase {
        ExportPhase::Start => event is Start,
        ExportPhase::Inspecting => event is Inspected,
        ExportPhase::CreatingContainer => event is ContainerCreated,
        ExportPhase::Downloading { .. } => event is Downloaded,
        ExportPhase::RemovingContainer => event is ContainerRemoved,
        ExportPhase::Finished => false,
    }
}

impl ExportVolume {
    /// An export not yet begun.
    pub fn new(id: String, export_path: String, container_path: String, image: String) -> (res:
        Self)
        ensures
            res == (ExportVolume { id, export_path, container_path, image, phase: ExportPhase::Start }),
    {
        ExportVolume { id, export_path, container_path, image, phase: ExportPhase::Start }
    }

    /// Whether the event is the one the export waits for.
    pub fn accepts(&self, event: &ExportVolumeEvent) -> (res: bool)
        ensures
            res == export_accepts(self.phase, *event),
    {
        match (&self.phase, event) {
            (ExportPhase::Start, ExportVolumeEvent::Start) => true,
            (ExportPhase::Inspecting, ExportVolumeEvent::Inspected(_)) => true,
            (ExportPhase::CreatingContainer, ExportVolumeEvent::ContainerCreated(_)) => true,
            (ExportPhase::Downloading { .. }, ExportVolumeEvent::Downloaded(_)) => true,
            (ExportPhase::RemovingContainer, ExportVolumeEvent::ContainerRemoved(_)) => true,
            _ => false,
        }
    }

    /// One step of the export. The volume must exist before any container is made; then the
    /// temporary container with the volume is created, the volume's path copied out of it
    /// into the archive, and the container removed. A failed question, container or copy
    /// ends the export with its error; a failed removal of the container does not.
    pub fn step(&mut self, event: ExportVolumeEvent) -> (res: ExportVolumeAction)
        requires
            export_accepts(old(self).phase, event),
        ensures
            final(self).id == old(self).id,
            final(self).export_path == old(self).export_path,
            final(self).container_path == old(self).container_path,
            final(self).image == old(self).image,
            match event {
                ExportVolumeEvent::Start => res matches ExportVolumeAction::InspectVolume(i) && i@
                    == old(self).id@ && final(self).phase == ExportPhase::Inspecting,
                ExportVolumeEvent::Inspected(Ok(true)) => res matches ExportVolumeAction::CreateContainer(
                    c,
                ) && c.image == old(self).image && c.network_disabled && c.volumes@.len() == 1
                    && c.volumes@[0]@ == old(self).id@ + ":"@ + old(self).container_path@
                    && c.mounts@.len() == 1 && c.mounts@[0].name@ == old(self).id@
                    && c.mounts@[0].container_path@ == old(self).container_path@ && final(self).phase == ExportPhase::CreatingContainer,
                ExportVolumeEvent::Inspected(Ok(false)) => res matches ExportVolumeAction::Fail(m)
                    && m@ == "Volume "@ + old(self).id@ + " does not exist"@ && final(self).phase
                    == ExportPhase::Finished,
                ExportVolumeEvent::Inspected(Err(e)) | ExportVolumeEvent::ContainerCreated(Err(e))
                | ExportVolumeEvent::Downloaded(Err(e)) => res == ExportVolumeAction::Fail(e)
                    && final(self).phase == ExportPhase::Finished,
                ExportVolumeEvent::ContainerCreated(Ok(c)) => res == (ExportVolumeAction::Download {
                    container: c,
                    src: old(self).container_path,
                    dst: old(self).export_path,
                }) && final(self).phase == (ExportPhase::Downloading { container: c }),
                ExportVolumeEvent::Downloaded(Ok(())) => match old(self).phase {
                    ExportPhase::Downloading { container } => res
                        == ExportVolumeAction::RemoveContainer(container) && final(self).phase
                        == ExportPhase::RemovingContainer,
                    _ => false,
                },
                ExportVolumeEvent::ContainerRemoved(_) => res == ExportVolumeAction::Done && final(self).phase == ExportPhase::Finished,
            },
    {
        proof {
            reveal_strlit("Volume ");
            reveal_strlit(" does not exist");
        }
        let mut phase = ExportPhase::Finished;
        std::mem::swap(&mut phase, &mut self.phase);
        match event {
            ExportVolumeEvent::Start => {
                self.phase = ExportPhase::Inspecting;
                ExportVolumeAction::InspectVolume(self.id.clone())
            },
            ExportVolumeEvent::Inspected(Ok(true)) => {
                self.phase = ExportPhase::CreatingContainer;
                ExportVolumeAction::CreateContainer(
                    temporary_volume_container(
                        self.image.clone(),
                        self.id.clone(),
                        self.container_path.clone(),
                    ),
                )
            },
            ExportVolumeEvent::Inspected(Ok(false)) => ExportVolumeAction::Fail(
                concat_strings(
                    &concat_strings(&string_from("Volume "), &self.id),
                    &string_from(" does not exist"),
                ),
            ),
            ExportVolumeEvent::Inspected(Err(e)) | ExportVolumeEvent::ContainerCreated(Err(e))
            | ExportVolumeEvent::Downloaded(Err(e)) => ExportVolumeAction::Fail(e),
            ExportVolumeEvent::ContainerCreated(Ok(c)) => {
                self.phase = ExportPhase::Downloading { container: c.clone() };
                ExportVolumeAction::Download {
                    container: c,
                    src: self.container_path.clone(),
                    dst: self.export_path.clone(),
                }
            },
            ExportVolumeEvent::Downloaded(Ok(())) => match phase {
                ExportPhase::Downloading { container } => {
                    self.phase = ExportPhase::RemovingContainer;
                    ExportVolumeAction::RemoveContainer(container)
                },
                _ => ExportVolumeAction::Done,
            },
            ExportVolumeEvent::ContainerRemoved(_) => ExportVolumeAction::Done,
        }
    }
}

} // verus!
