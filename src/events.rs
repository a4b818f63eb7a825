//! Progress events of a build, and the order in which a deploy emits them.
use vstd::prelude::*;
use vstd::string::*;

verus! {

/// One transition of the deployer, as journaled under `type = "deploy"`.
#[derive(Debug)]
pub enum ProvisionerDeployEvent {
    DeployBegin { app_id: i32, image_id: String },
    CreatingNetwork { network_name: String },
    CreatedNetwork { network_id: String },
    UsingExistingNetwork { network_id: String },
    CreatingNewContainer,
    CreatedNewContainer { container_id: String },
    StartingNewContainer,
    StartedNewContainer,
    RetrievingContainerIP,
    RetrievedContainerIP { container_ip: String },
    AddingNewContainerAsUpstream,
    CreatingNewRoute { route_id: String },
    RemovingOldContainerAsUpstream,
    StoppingOldContainer { container_id: String },
    DeletingOldContainer,
    DeployEnd { app_id: i32, app_slug: String },
}

/// A progress event of a build pipeline stage.
#[derive(Debug)]
pub enum ProvisionerEvent {
    /// A line printed by git while fetching the source.
    GitClone(String),
    /// One progress record of the image build, as the JSON text the engine sent.
    DockerBuild(String),
    Deploy(ProvisionerDeployEvent),
}

/// Position of a deploy event in the transition order.
pub open spec fn deploy_rank(e: ProvisionerDeployEvent) -> nat {
    match e {
        ProvisionerDeployEvent::DeployBegin { .. } => 0,
        ProvisionerDeployEvent::CreatingNetwork { .. } => 1,
        ProvisionerDeployEvent::CreatedNetwork { .. } => 2,
        ProvisionerDeployEvent::UsingExistingNetwork { .. } => 2,
        ProvisionerDeployEvent::CreatingNewContainer => 3,
        ProvisionerDeployEvent::CreatedNewContainer { .. } => 4,
        ProvisionerDeployEvent::StartingNewContainer => 5,
        ProvisionerDeployEvent::StartedNewContainer => 6,
        ProvisionerDeployEvent::RetrievingContainerIP => 7,
        ProvisionerDeployEvent::RetrievedContainerIP { .. } => 8,
        ProvisionerDeployEvent::AddingNewContainerAsUpstream => 9,
        ProvisionerDeployEvent::CreatingNewRoute { .. } => 10,
        ProvisionerDeployEvent::RemovingOldContainerAsUpstream => 11,
        ProvisionerDeployEvent::StoppingOldContainer { .. } => 12,
        ProvisionerDeployEvent::DeletingOldContainer => 13,
        ProvisionerDeployEvent::DeployEnd { .. } => 14,
    }
}

/// Whether event `b` may directly follow event `a` in one deploy: the next
/// transition, or a skip over a step that is only taken on some runs (creating
/// the network, creating the route, retiring an old container).
pub open spec fn deploy_follows(a: ProvisionerDeployEvent, b: ProvisionerDeployEvent) -> bool {
    let r = deploy_rank(a);
    let s = deploy_rank(b);
    ||| s == r + 1 && !(b is UsingExistingNetwork && a is CreatingNetwork) && !(
    b is CreatingNetwork && r != 0)
    ||| a is DeployBegin && b is UsingExistingNetwork
    ||| r == 9 && s == 11
    ||| r == 11 && s == 14
}

/// The deploy events of one run form a chain: it starts with `deploy_begin`
/// and each event follows the one before it.
pub open spec fn deploy_chain(evs: Seq<ProvisionerDeployEvent>) -> bool {
    &&& evs.len() > 0
    &&& evs[0] is DeployBegin
    &&& forall|i: int| 0 < i < evs.len() ==> deploy_follows(#[trigger] evs[i - 1], evs[i])
}

/// The value of the `type` field of a journaled event.
#[derive(Debug)]
pub enum EventType {
    GitClone,
    DockerBuild,
    Deploy,
    Error,
}

/// Position of an event type in the order `git_clone* docker_build* deploy* error?`.
pub open spec fn type_rank(t: EventType) -> nat {
    match t {
        EventType::GitClone => 0,
        EventType::DockerBuild => 1,
        EventType::Deploy => 2,
        EventType::Error => 3,
    }
}

pub open spec fn type_tag_spec(t: EventType) -> Seq<char> {
    match t {
        EventType::GitClone => "git_clone"@,
        EventType::DockerBuild => "docker_build"@,
        EventType::Deploy => "deploy"@,
        EventType::Error => "error"@,
    }
}

impl EventType {
    /// The tag written in the `type` field.
    pub fn tag(&self) -> (r: String)
        ensures
            r@ == type_tag_spec(*self),
    {
        match self {
            EventType::GitClone => String::from_str("git_clone"),
            EventType::DockerBuild => String::from_str("docker_build"),
            EventType::Deploy => String::from_str("deploy"),
            EventType::Error => String::from_str("error"),
        }
    }
}

pub open spec fn event_type_spec(e: ProvisionerEvent) -> EventType {
    match e {
        ProvisionerEvent::GitClone(_) => EventType::GitClone,
        ProvisionerEvent::DockerBuild(_) => EventType::DockerBuild,
        ProvisionerEvent::Deploy(_) => EventType::Deploy,
    }
}

impl ProvisionerEvent {
    pub fn event_type(&self) -> (r: EventType)
        ensures
            r == event_type_spec(*self),
    {
        match self {
            ProvisionerEvent::GitClone(_) => EventType::GitClone,
            ProvisionerEvent::DockerBuild(_) => EventType::DockerBuild,
            ProvisionerEvent::Deploy(_) => EventType::Deploy,
        }
    }
}

pub open spec fn deploy_tag_spec(e: ProvisionerDeployEvent) -> Seq<char> {
    match e {
        ProvisionerDeployEvent::DeployBegin { .. } => "deploy_begin"@,
        ProvisionerDeployEvent::CreatingNetwork { .. } => "creating_network"@,
        ProvisionerDeployEvent::CreatedNetwork { .. } => "created_network"@,
        ProvisionerDeployEvent::UsingExistingNetwork { .. } => "using_existing_network"@,
        ProvisionerDeployEvent::CreatingNewContainer => "creating_new_container"@,
        ProvisionerDeployEvent::CreatedNewContainer { .. } => "created_new_container"@,
        ProvisionerDeployEvent::StartingNewContainer => "starting_new_container"@,
        ProvisionerDeployEvent::StartedNewContainer => "started_new_container"@,
        ProvisionerDeployEvent::RetrievingContainerIP => "retrieving_container_ip"@,
        ProvisionerDeployEvent::RetrievedContainerIP { .. } => "retrieved_container_ip"@,
        ProvisionerDeployEvent::AddingNewContainerAsUpstream => "adding_new_container_as_upstream"@,
        ProvisionerDeployEvent::CreatingNewRoute { .. } => "creating_new_route"@,
        ProvisionerDeployEvent::RemovingOldContainerAsUpstream => "removing_old_container_as_upstream"@,
        ProvisionerDeployEvent::StoppingOldContainer { .. } => "stopping_old_container"@,
        ProvisionerDeployEvent::DeletingOldContainer => "deleting_old_container"@,
        ProvisionerDeployEvent::DeployEnd { .. } => "deploy_end"@,
    }
}

impl ProvisionerDeployEvent {
    /// The tag written in the `deploy` field.
    pub fn tag(&self) -> (r: String)
        ensures
            r@ == deploy_tag_spec(*self),
    {
        match self {
            ProvisionerDeployEvent::DeployBegin { .. } => String::from_str("deploy_begin"),
            ProvisionerDeployEvent::CreatingNetwork { .. } => String::from_str("creating_network"),
            ProvisionerDeployEvent::CreatedNetwork { .. } => String::from_str("created_network"),
            ProvisionerDeployEvent::UsingExistingNetwork { .. } => String::from_str(
                "using_existing_network",
            ),
            ProvisionerDeployEvent::CreatingNewContainer => String::from_str(
                "creating_new_container",
            ),
            ProvisionerDeployEvent::CreatedNewContainer { .. } => String::from_str(
                "created_new_container",
            ),
            ProvisionerDeployEvent::StartingNewContainer => String::from_str(
                "starting_new_container",
            ),
            ProvisionerDeployEvent::StartedNewContainer => String::from_str(
                "started_new_container",
            ),
            ProvisionerDeployEvent::RetrievingContainerIP => String::from_str(
                "retrieving_container_ip",
            ),
            ProvisionerDeployEvent::RetrievedContainerIP { .. } => String::from_str(
                "retrieved_container_ip",
            ),
            ProvisionerDeployEvent::AddingNewContainerAsUpstream => String::from_str(
                "adding_new_container_as_upstream",
            ),
            ProvisionerDeployEvent::CreatingNewRoute { .. } => String::from_str(
                "creating_new_route",
            ),
            ProvisionerDeployEvent::RemovingOldContainerAsUpstream => String::from_str(
                "removing_old_container_as_upstream",
            ),
            ProvisionerDeployEvent::StoppingOldContainer { .. } => String::from_str(
                "stopping_old_container",
            ),
            ProvisionerDeployEvent::DeletingOldContainer => String::from_str(
                "deleting_old_container",
            ),
            ProvisionerDeployEvent::DeployEnd { .. } => String::from_str("deploy_end"),
        }
    }
}


impl ProvisionerDeployEvent {
    /// A field-for-field copy of the event.
    pub fn copy(&self) -> (r: ProvisionerDeployEvent)
        ensures
            r == *self,
    {
        match self {
            ProvisionerDeployEvent::DeployBegin { app_id, image_id } => ProvisionerDeployEvent::DeployBegin {
                app_id: *app_id,
                image_id: image_id.clone(),
            },
            ProvisionerDeployEvent::CreatingNetwork { network_name } => ProvisionerDeployEvent::CreatingNetwork {
                network_name: network_name.clone(),
            },
            ProvisionerDeployEvent::CreatedNetwork { network_id } => ProvisionerDeployEvent::CreatedNetwork {
                network_id: network_id.clone(),
            },
            ProvisionerDeployEvent::UsingExistingNetwork { network_id } => ProvisionerDeployEvent::UsingExistingNetwork {
                network_id: network_id.clone(),
            },
            ProvisionerDeployEvent::CreatingNewContainer => ProvisionerDeployEvent::CreatingNewContainer,
            ProvisionerDeployEvent::CreatedNewContainer { container_id } => ProvisionerDeployEvent::CreatedNewContainer {
                container_id: container_id.clone(),
            },
            ProvisionerDeployEvent::StartingNewContainer => ProvisionerDeployEvent::StartingNewContainer,
            ProvisionerDeployEvent::StartedNewContainer => ProvisionerDeployEvent::StartedNewContainer,
            ProvisionerDeployEvent::RetrievingContainerIP => ProvisionerDeployEvent::RetrievingContainerIP,
            ProvisionerDeployEvent::RetrievedContainerIP { container_ip } => ProvisionerDeployEvent::RetrievedContainerIP {
                container_ip: container_ip.clone(),
            },
            ProvisionerDeployEvent::AddingNewContainerAsUpstream => ProvisionerDeployEvent::AddingNewContainerAsUpstream,
            ProvisionerDeployEvent::CreatingNewRoute { route_id } => ProvisionerDeployEvent::CreatingNewRoute {
                route_id: route_id.clone(),
            },
            ProvisionerDeployEvent::RemovingOldContainerAsUpstream => ProvisionerDeployEvent::RemovingOldContainerAsUpstream,
            ProvisionerDeployEvent::StoppingOldContainer { container_id } => ProvisionerDeployEvent::StoppingOldContainer {
                container_id: container_id.clone(),
            },
            ProvisionerDeployEvent::DeletingOldContainer => ProvisionerDeployEvent::DeletingOldContainer,
            ProvisionerDeployEvent::DeployEnd { app_id, app_slug } => ProvisionerDeployEvent::DeployEnd {
                app_id: *app_id,
                app_slug: app_slug.clone(),
            },
        }
    }
}

} // verus!
