//! Deployments: the container engines apps are installed into.
use crate::text::{chars_equal, chars_of_string, string_from};
use vstd::prelude::*;

verus! {

/// A deployment on a Docker engine reached through a socket. Two deployments are equal when
/// their ids and sockets are; whether one is the default does not count.
#[derive(Debug, Clone, Eq)]
pub struct DockerDeploymentImpl {
    pub id: String,
    /// The socket of the engine.
    pub path: String,
    pub is_default: bool,
}

impl DockerDeploymentImpl {
    /// A deployment that is not the default one.
    pub fn new(id: String, path: String) -> (res: Self)
        ensures
            res.id == id,
            res.path == path,
            !res.is_default,
    {
        DockerDeploymentImpl { id, path, is_default: false }
    }

    /// The default deployment.
    pub fn new_default(id: String, path: String) -> (res: Self)
        ensures
            res.id == id,
            res.path == path,
            res.is_default,
    {
        DockerDeploymentImpl { id, path, is_default: true }
    }

    /// Whether this is the default deployment.
    pub fn is_default(&self) -> (res: bool)
        ensures
            res == self.is_default,
    {
        self.is_default
    }

    /// The id of the deployment.
    pub fn deployment_id(&self) -> (res: &String)
        ensures
            *res == self.id,
    {
        &self.id
    }
}

impl Default for DockerDeploymentImpl {
    /// The default deployment on the local engine.
    fn default() -> (res: Self)
        ensures
            res.id@ == "DefaultDockerDeploymentImpl"@,
            res.path@ == "/var/run/docker.sock"@,
            res.is_default,
    {
        Self::new_default(
            string_from("DefaultDockerDeploymentImpl"),
            string_from("/var/run/docker.sock"),
        )
    }
}

impl PartialEq for DockerDeploymentImpl {
    fn eq(&self, other: &Self) -> (res: bool) {
        chars_equal(&chars_of_string(&self.id), &chars_of_string(&other.id)) && chars_equal(
            &chars_of_string(&self.path),
            &chars_of_string(&other.path),
        )
    }
}

impl vstd::std_specs::cmp::PartialEqSpecImpl for DockerDeploymentImpl {
    open spec fn obeys_eq_spec() -> bool {
        true
    }

    open spec fn eq_spec(&self, other: &Self) -> bool {
        self.id@ == other.id@ && self.path@ == other.path@
    }
}

/// A deployment of compositions on a Docker engine reached through a socket.
#[derive(Debug, Clone, PartialEq, Eq)]
pub struct ComposeDeploymentImpl {
    pub id: String,
    pub docker_socket_path: String,
    pub is_default: bool,
}

impl ComposeDeploymentImpl {
    /// Whether this is the default deployment of compositions.
    pub fn is_default(&self) -> (res: bool)
        ensures
            res == self.is_default,
    {
        self.is_default
    }

    /// The id of the deployment.
    pub fn deployment_id(&self) -> (res: &String)
        ensures
            *res == self.id,
    {
        &self.id
    }
}

impl Default for ComposeDeploymentImpl {
    /// The default deployment of compositions on the local engine.
    fn default() -> (res: Self)
        ensures
            res.id@ == "DefaultComposeDeployment"@,
            res.docker_socket_path@ == "/var/run/docker.sock"@,
            res.is_default,
    {
        ComposeDeploymentImpl {
            docker_socket_path: string_from("/var/run/docker.sock"),
            id: string_from("DefaultComposeDeployment"),
            is_default: true,
        }
    }
}

/// A deployment as it is stored: of single containers or of compositions.
#[derive(Debug, Clone)]
pub enum SerializedDeployment {
    Docker(DockerDeploymentImpl),
    Compose(ComposeDeploymentImpl),
}

impl SerializedDeployment {
    /// The id of the deployment.
    pub fn id(&self) -> (res: &String)
        ensures
            *res == match self {
                SerializedDeployment::Docker(d) => d.id,
                SerializedDeployment::Compose(c) => c.id,
            },
    {
        match self {
            SerializedDeployment::Docker(d) => &d.id,
            SerializedDeployment::Compose(c) => &c.id,
        }
    }

    /// Whether it is a default deployment.
    pub fn is_default(&self) -> (res: bool)
        ensures
            res == match self {
                SerializedDeployment::Docker(d) => d.is_default,
                SerializedDeployment::Compose(c) => c.is_default,
            },
    {
        match self {
            SerializedDeployment::Docker(d) => d.is_default,
            SerializedDeployment::Compose(c) => c.is_default,
        }
    }
}

} // verus!
