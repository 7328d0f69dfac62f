//! Mounts of containers: bind mounts `/host/path:/container/path` and volume mounts
//! `volume-name:/container/path`.
use crate::text::{
    ascii_alnum, chars_of, is_ascii_alnum, split_at_char, split_spec, string_from, string_of,
};
use vstd::prelude::*;

verus! {

/// A named volume mounted at a path of the container.
#[derive(Debug, Clone, PartialEq, Eq)]
pub struct VolumeMount {
    pub name: String,
    pub container_path: String,
}

/// A path of the host mounted at a path of the container.
#[derive(Debug, Clone, PartialEq, Eq)]
pub struct BindMount {
    pub host_path: String,
    pub container_path: String,
}

/// A mount of a container.
#[derive(Debug, Clone, PartialEq, Eq)]
pub enum Mount {
    Bind(BindMount),
    Volume(VolumeMount),
}

/// Why a text is no mount.
#[derive(Debug, Clone, Copy, PartialEq, Eq)]
pub enum MountError {
    /// Not exactly two parts separated by `:`; holds their number.
    PartCount(usize),
    /// The host path does not start at the root.
    HostPathNotAbsolute,
    /// The container path does not start at the root.
    ContainerPathNotAbsolute,
    /// The volume name breaks the naming rule.
    InvalidVolumeName,
}

/// A path that starts at the root.
pub open spec fn is_absolute(p: Seq<char>) -> bool {
    p.len() > 0 && p[0] == '/'
}

/// Characters of volume names.
pub open spec fn is_volume_name_char(c: char) -> bool {
    is_ascii_alnum(c) || c == '-' || c == '_' || c == '.'
}

/// A volume name: at least two characters out of ASCII letters, digits, `-`, `_` and `.`,
/// ending with a letter or digit.
pub open spec fn volume_name_ok(n: Seq<char>) -> bool {
    &&& n.len() >= 2
    &&& forall|i: int| 0 <= i < n.len() ==> is_volume_name_char(#[trigger] n[i])
    &&& is_ascii_alnum(n.last())
}

/// Host and container path of the bind mount written as `text`.
pub open spec fn parse_bind_mount_spec(text: Seq<char>) -> Result<(Seq<char>, Seq<char>), MountError> {
    let parts = split_spec(text, ':');
    if parts.len() != 2 {
        Err(MountError::PartCount(parts.len() as usize))
    } else if !is_absolute(parts[0]) {
        Err(MountError::HostPathNotAbsolute)
    } else if !is_absolute(parts[1]) {
        Err(MountError::ContainerPathNotAbsolute)
    } else {
        Ok((parts[0], parts[1]))
    }
}

/// Volume name and container path of the volume mount written as `text`.
pub open spec fn parse_volume_mount_spec(text: Seq<char>) -> Result<(Seq<char>, Seq<char>), MountError> {
    let parts = split_spec(text, ':');
    if parts.len() != 2 {
        Err(MountError::PartCount(parts.len() as usize))
    } else if !is_absolute(parts[1]) {
        Err(MountError::ContainerPathNotAbsolute)
    } else if !volume_name_ok(parts[0]) {
        Err(MountError::InvalidVolumeName)
    } else {
        Ok((parts[0], parts[1]))
    }
}

fn absolute(p: &Vec<char>) -> (res: bool)
    ensures
        res == is_absolute(p@),
{
    p.len() > 0 && p[0] == '/'
}

fn volume_name(n: &Vec<char>) -> (res: bool)
    ensures
        res == volume_name_ok(n@),
{
    if n.len() < 2 {
        return false;
    }
    let mut i: usize = 0;
    while i < n.len()
        invariant
            0 <= i <= n.len(),
            forall|k: int| 0 <= k < i ==> is_volume_name_char(#[trigger] n@[k]),
        decreases n.len() - i,
    {
        let c = n[i];
        if !(ascii_alnum(c) || c == '-' || c == '_' || c == '.') {
            return false;
        }
        i = i + 1;
    }
    ascii_alnum(n[n.len() - 1])
}

impl BindMount {
    /// The socket of the Docker daemon, mounted at the same path.
    pub fn default_docker_socket_bind_mount() -> (res: Self)
        ensures
            res.host_path@ == "/run/docker.sock"@,
            res.container_path@ == "/run/docker.sock"@,
    {
        BindMount {
            host_path: string_from("/run/docker.sock"),
            container_path: string_from("/run/docker.sock"),
        }
    }

    /// Reads a bind mount written as `/host/path:/container/path`.
    pub fn from_str(s: &str) -> (res: Result<Self, MountError>)
        ensures
            match res {
                Ok(b) => parse_bind_mount_spec(s@) == Ok::<(Seq<char>, Seq<char>), MountError>(
                    (b.host_path@, b.container_path@),
                ),
                Err(e) => parse_bind_mount_spec(s@) == Err::<(Seq<char>, Seq<char>), MountError>(e),
            },
    {
        let parts = split_at_char(&chars_of(s), ':');
        if parts.len() != 2 {
            return Err(MountError::PartCount(parts.len()));
        }
        if !absolute(&parts[0]) {
            return Err(MountError::HostPathNotAbsolute);
        }
        if !absolute(&parts[1]) {
            return Err(MountError::ContainerPathNotAbsolute);
        }
        Ok(BindMount { host_path: string_of(&parts[0]), container_path: string_of(&parts[1]) })
    }
}

impl VolumeMount {
    /// Reads a volume mount written as `volume-name:/container/path`.
    pub fn from_str(s: &str) -> (res: Result<Self, MountError>)
        ensures
            match res {
                Ok(v) => parse_volume_mount_spec(s@) == Ok::<(Seq<char>, Seq<char>), MountError>(
                    (v.name@, v.container_path@),
                ),
                Err(e) => parse_volume_mount_spec(s@) == Err::<(Seq<char>, Seq<char>), MountError>(e),
            },
    {
        let parts = split_at_char(&chars_of(s), ':');
        if parts.len() != 2 {
            return Err(MountError::PartCount(parts.len()));
        }
        if !absolute(&parts[1]) {
            return Err(MountError::ContainerPathNotAbsolute);
        }
        if !volume_name(&parts[0]) {
            return Err(MountError::InvalidVolumeName);
        }
        Ok(VolumeMount { name: string_of(&parts[0]), container_path: string_of(&parts[1]) })
    }
}

impl Mount {
    /// Reads a mount: text starting with `/` is a bind mount, any other a volume mount.
    pub fn from_str(s: &str) -> (res: Result<Self, MountError>)
        ensures
            match res {
                Ok(Mount::Bind(b)) => is_absolute(s@) && parse_bind_mount_spec(s@) == Ok::<
                    (Seq<char>, Seq<char>),
                    MountError,
                >((b.host_path@, b.container_path@)),
                Ok(Mount::Volume(v)) => !is_absolute(s@) && parse_volume_mount_spec(s@) == Ok::<
                    (Seq<char>, Seq<char>),
                    MountError,
                >((v.name@, v.container_path@)),
                Err(e) => if is_absolute(s@) {
                    parse_bind_mount_spec(s@) == Err::<(Seq<char>, Seq<char>), MountError>(e)
                } else {
                    parse_volume_mount_spec(s@) == Err::<(Seq<char>, Seq<char>), MountError>(e)
                },
            },
    {
        let text = chars_of(s);
        if absolute(&text) {
            match BindMount::from_str(s) {
                Ok(b) => Ok(Mount::Bind(b)),
                Err(e) => Err(e),
            }
        } else {
            match VolumeMount::from_str(s) {
                Ok(v) => Ok(Mount::Volume(v)),
                Err(e) => Err(e),
            }
        }
    }
}

} // verus!
