//! The states an instance can be in or be asked to reach.
use crate::app::AppKey;
use crate::instance::id::InstanceId;
use vstd::prelude::*;

verus! {

/// State of an instance.
#[derive(Debug, Clone, Copy, PartialEq, Eq, Structural)]
pub enum InstanceStatus {
    NotCreated,
    Requested,
    ResourcesReady,
    Stopped,
    Running,
    Orphaned,
    Unknown,
}

/// The state of an instance made of several containers: `Stopped` without containers, the
/// common state when all agree, `Unknown` otherwise.
pub open spec fn aggregate_status_spec(statuses: Seq<InstanceStatus>) -> InstanceStatus {
    if statuses.len() == 0 {
        InstanceStatus::Stopped
    } else if forall|i: int| 0 <= i < statuses.len() ==> #[trigger] statuses[i] == statuses[0] {
        statuses[0]
    } else {
        InstanceStatus::Unknown
    }
}

/// The state of an instance made of several containers, from the states of its containers.
pub fn aggregate_status(status_vec: Vec<InstanceStatus>) -> (res: InstanceStatus)
    ensures
        res == aggregate_status_spec(status_vec@),
{
    if status_vec.len() == 0 {
        return InstanceStatus::Stopped;
    }
    let first = status_vec[0];
    let mut i: usize = 1;
    while i < status_vec.len()
        invariant
            1 <= i <= status_vec.len(),
            first == status_vec@[0],
            forall|k: int| 0 <= k < i ==> status_vec@[k] == first,
        decreases status_vec.len() - i,
    {
        if status_vec[i] != first {
            assert(status_vec@[i as int] != status_vec@[0]);
            return InstanceStatus::Unknown;
        }
        i = i + 1;
    }
    first
}

/// An instance without containers is stopped; with containers it is in the state of its
/// first container when every container is in that same state, and its state is unknown as
/// soon as any container differs from the first.
pub proof fn law_aggregate_status(statuses: Seq<InstanceStatus>)
    ensures
        statuses.len() == 0 ==> aggregate_status_spec(statuses) == InstanceStatus::Stopped,
        statuses.len() > 0 && (forall|i: int| 0 <= i < statuses.len() ==> #[trigger] statuses[i] == statuses[0])
            ==> aggregate_status_spec(statuses) == statuses[0],
        forall|i: int|
            0 <= i < statuses.len() && #[trigger] statuses[i] != statuses[0] ==> aggregate_status_spec(
                statuses,
            ) == InstanceStatus::Unknown,
        aggregate_status_spec(statuses) == InstanceStatus::Stopped || aggregate_status_spec(statuses)
            == InstanceStatus::Unknown || (statuses.len() > 0 && aggregate_status_spec(statuses)
            == statuses[0]),
{
    assert forall|i: int|
        0 <= i < statuses.len() && #[trigger] statuses[i] != statuses[0] implies aggregate_status_spec(statuses)
            == InstanceStatus::Unknown by {
        assert(!(statuses[i] == statuses[0]));
    }
}

/// The state of a container as the container engine reports it.
#[derive(Debug, Clone, Copy, PartialEq, Eq, Structural)]
pub enum ContainerState {
    Empty,
    Created,
    Running,
    Paused,
    Restarting,
    Removing,
    Exited,
    Dead,
}

/// The state of an instance of one container: running while its container runs, pauses,
/// restarts or is being removed, orphaned otherwise.
pub open spec fn status_of_container(state: ContainerState) -> InstanceStatus {
    match state {
        ContainerState::Running | ContainerState::Paused | ContainerState::Restarting
        | ContainerState::Removing => InstanceStatus::Running,
        _ => InstanceStatus::Orphaned,
    }
}

impl InstanceStatus {
    /// The state of an instance from the inspection of its container: `Stopped` where there
    /// is no container, `Unknown` where the container reports no state, else the state of
    /// the container.
    pub fn from_inspection(inspection: Option<Option<ContainerState>>) -> (res: Self)
        ensures
            res == match inspection {
                None => InstanceStatus::Stopped,
                Some(None) => InstanceStatus::Unknown,
                Some(Some(state)) => status_of_container(state),
            },
    {
        match inspection {
            None => InstanceStatus::Stopped,
            Some(None) => InstanceStatus::Unknown,
            Some(Some(state)) => InstanceStatus::from_container_state(state),
        }
    }

    /// The state of an instance whose container is in `state`.
    pub fn from_container_state(state: ContainerState) -> (res: Self)
        ensures
            res == status_of_container(state),
    {
        match state {
            ContainerState::Empty => InstanceStatus::Orphaned,
            ContainerState::Created => InstanceStatus::Orphaned,
            ContainerState::Running => InstanceStatus::Running,
            ContainerState::Paused => InstanceStatus::Running,
            ContainerState::Restarting => InstanceStatus::Running,
            ContainerState::Removing => InstanceStatus::Running,
            ContainerState::Exited => InstanceStatus::Orphaned,
            ContainerState::Dead => InstanceStatus::Orphaned,
        }
    }
}

/// The stored state of an instance made of several containers.
#[derive(Debug, Clone, PartialEq, Eq)]
pub struct ComposeInstanceDeserializable {
    pub id: InstanceId,
    pub app_key: AppKey,
    pub deployment_id: String,
    pub name: String,
    pub desired: InstanceStatus,
}

} // verus!
