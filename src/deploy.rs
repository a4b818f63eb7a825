//! The deployer: one run of the deploy state machine for an app.
//!
//! The deployer decides; its caller acts. [`Deployer::action`] names the next
//! call to the container engine, the proxy or the database, and
//! [`Deployer::step`] takes that call's outcome and moves to the next phase,
//! recording one event for every transition.
use vstd::prelude::*;
use vstd::string::*;
use crate::address::{before_slash, container_port, container_port_spec, strip_prefix_length};
use crate::events::{deploy_chain, deploy_follows, deploy_rank, ProvisionerDeployEvent};
use crate::model::{
    copy_opt, error_message_spec, from_external_spec, App, EngineErrorKind, ExternalError,
    ProvisionerError,
};
use crate::naming::{
    image_name, image_name_spec, network_name, network_name_spec, route_id, route_id_spec,
    slug_label, slug_label_spec, upstream_address, upstream_spec,
};
use crate::proxy::{
    create_route_request, cut_in_request, is_create_route, is_cut_in, is_cut_over,
    replace_upstream_list, ProxyRequest,
};

verus! {

/// The warm-up interval between cut-in and cut-over, in milliseconds.
pub const DEFAULT_WARM_UP_MILLIS: u64 = 5000;

#[derive(PartialEq, Eq, Structural, Clone, Copy, Debug)]
pub enum DeployPhase {
    ReadApp,
    CreateNetwork,
    AttachProxy,
    CreateContainer,
    StartContainer,
    InspectContainer,
    InspectImage,
    CutIn,
    CreateRoute,
    WarmUp,
    CutOver,
    StopOldContainer,
    RemoveOldContainer,
    Persist,
    Done,
    Failed,
}

/// Position of a phase in a run (`Failed` can follow any phase).
pub open spec fn phase_rank(p: DeployPhase) -> nat {
    match p {
        DeployPhase::ReadApp => 0,
        DeployPhase::CreateNetwork => 1,
        DeployPhase::AttachProxy => 2,
        DeployPhase::CreateContainer => 3,
        DeployPhase::StartContainer => 4,
        DeployPhase::InspectContainer => 5,
        DeployPhase::InspectImage => 6,
        DeployPhase::CutIn => 7,
        DeployPhase::CreateRoute => 8,
        DeployPhase::WarmUp => 9,
        DeployPhase::CutOver => 10,
        DeployPhase::StopOldContainer => 11,
        DeployPhase::RemoveOldContainer => 12,
        DeployPhase::Persist => 13,
        DeployPhase::Done => 14,
        DeployPhase::Failed => 15,
    }
}

/// `p` is a phase of a live run at or after `q`.
pub open spec fn reached(p: DeployPhase, q: DeployPhase) -> bool {
    p != DeployPhase::Failed && phase_rank(p) >= phase_rank(q)
}

/// The rank of the last event recorded on entering phase `p`.
pub open spec fn last_event_fits(p: DeployPhase, r: nat) -> bool {
    match p {
        DeployPhase::ReadApp => r == 0,
        DeployPhase::CreateNetwork => r == 1,
        DeployPhase::AttachProxy => r == 2,
        DeployPhase::CreateContainer => r == 3,
        DeployPhase::StartContainer => r == 5,
        DeployPhase::InspectContainer => r == 7,
        DeployPhase::InspectImage => r == 8,
        DeployPhase::CutIn => r == 9,
        DeployPhase::CreateRoute => r == 10,
        DeployPhase::WarmUp => r == 9 || r == 10,
        DeployPhase::CutOver => r == 11,
        DeployPhase::StopOldContainer => r == 12,
        DeployPhase::RemoveOldContainer => r == 13,
        DeployPhase::Persist => r == 11 || r == 13,
        DeployPhase::Done => r == 14,
        DeployPhase::Failed => true,
    }
}

/// One network a container is attached to, as the engine reports it.
#[derive(Debug)]
pub struct EndpointInfo {
    pub network_name: String,
    pub ip_address: Option<String>,
}

/// The network settings of an inspected container.
#[derive(Debug)]
pub struct NetworkSettingsInfo {
    pub networks: Option<Vec<EndpointInfo>>,
}

/// What the deployer reads of an inspected container.
#[derive(Debug)]
pub struct ContainerInspection {
    pub network_settings: Option<NetworkSettingsInfo>,
}

/// Index of the first endpoint at or after `i` on the network `name`.
pub open spec fn endpoint_from(eps: Seq<EndpointInfo>, name: Seq<char>, i: int) -> Option<int>
    decreases eps.len() - i,
{
    if i < 0 || i >= eps.len() {
        None
    } else if eps[i].network_name@ == name {
        Some(i)
    } else {
        endpoint_from(eps, name, i + 1)
    }
}

/// The container's address on network `name` (without a prefix length), or
/// the message saying which part of the inspection was missing.
pub open spec fn container_ip_spec(c: ContainerInspection, name: Seq<char>) -> Result<
    Seq<char>,
    Seq<char>,
> {
    match c.network_settings {
        None => Err("Failed to get network settings"@),
        Some(s) => match s.networks {
            None => Err("Failed to get networks"@),
            Some(eps) => match endpoint_from(eps@, name, 0) {
                None => Err("Failed to get network"@),
                Some(i) => match eps@[i].ip_address {
                    None => Err("Failed to get IP address"@),
                    Some(ip) => Ok(before_slash(ip@)),
                },
            },
        },
    }
}

/// The address of the container on the app network, or the deploy error that
/// says what was missing.
pub fn container_ip(c: &ContainerInspection, network: &String) -> (r: Result<
    String,
    ProvisionerError,
>)
    ensures
        match container_ip_spec(*c, network@) {
            Ok(ip) => r matches Ok(s) && s@ == ip,
            Err(m) => r matches Err(ProvisionerError::DeployError(s)) && s@ == m,
        },
{
    let settings = match &c.network_settings {
        None => {
            return Err(ProvisionerError::DeployError(String::from_str("Failed to get network settings")));
        },
        Some(s) => s,
    };
    let eps = match &settings.networks {
        None => {
            return Err(ProvisionerError::DeployError(String::from_str("Failed to get networks")));
        },
        Some(e) => e,
    };
    let mut i: usize = 0;
    while i < eps.len()
        invariant
            i <= eps.len(),
            endpoint_from(eps@, network@, 0) == endpoint_from(eps@, network@, i as int),
            c.network_settings matches Some(s) && s.networks == Some(*eps),
        decreases eps.len() - i,
    {
        if eps[i].network_name == *network {
            assert(endpoint_from(eps@, network@, i as int) == Some(i as int));
            return match &eps[i].ip_address {
                None => Err(ProvisionerError::DeployError(String::from_str("Failed to get IP address"))),
                Some(ip) => Ok(strip_prefix_length(ip.as_str())),
            };
        }
        i = i + 1;
    }
    Err(ProvisionerError::DeployError(String::from_str("Failed to get network")))
}

/// What a finished call reports back to the deployer.
#[derive(Debug)]
pub enum DeployReply {
    /// The app row, or `None` when there is no row with the app's id.
    App(Option<App>),
    /// The id the engine gave the new network, if it returned one.
    NetworkCreated(Option<String>),
    ContainerCreated(String),
    ContainerInspected(ContainerInspection),
    /// The keys of the image's exposed ports (`"3000/tcp"`), empty when the
    /// image exposes none.
    ImageInspected(Vec<String>),
    /// The call succeeded and returned nothing the deployer reads.
    Done,
}

/// The next call the deployer asks for.
#[derive(Debug)]
pub enum DeployAction {
    ReadApp { app_id: i32 },
    CreateNetwork { name: String, label_key: String, label_value: String },
    AttachProxy { network_id: String, container: String },
    CreateContainer { image: String, network_id: String, label_key: String, label_value: String },
    StartContainer { container_id: String },
    InspectContainer { container_id: String },
    InspectImage { image: String },
    Proxy(ProxyRequest),
    WarmUp { millis: u64 },
    StopContainer { container_id: String },
    RemoveContainer { container_id: String },
    Persist { app_id: i32, container_id: String, network_id: String },
    /// The deploy succeeded.
    Finished,
    /// The deploy failed; `message` is what the `error` event carries.
    Abort { message: String },
}

/// The state of one deploy run.
#[derive(Debug)]
pub struct Deployer {
    pub phase: DeployPhase,
    pub app_id: i32,
    /// Name of the reverse-proxy container, attached to every app network.
    pub proxy_container: String,
    pub warm_up_millis: u64,
    /// The app row as read at the start of the run.
    pub app: Option<App>,
    pub network_id: Option<String>,
    pub new_container: Option<String>,
    pub container_ip: Option<String>,
    /// The container port traffic is routed to, once read from the image.
    pub port: u16,
    pub upstream: Option<String>,
    /// The proxy route holds the new upstream.
    pub cut_in: bool,
    pub events: Vec<ProvisionerDeployEvent>,
    pub error: Option<ProvisionerError>,
}

/// An engine error while retiring the old container that the run passes
/// over: the container is already gone or already stopped.
pub open spec fn tolerated_on_cleanup(e: ExternalError) -> bool {
    e matches ExternalError::Engine { kind, .. } && (kind == EngineErrorKind::NotFound || kind
        == EngineErrorKind::NotModified)
}

/// An engine error while attaching the proxy that means it is attached already.
pub open spec fn tolerated_on_attach(e: ExternalError) -> bool {
    e matches ExternalError::Engine { kind, .. } && (kind == EngineErrorKind::Forbidden || kind
        == EngineErrorKind::Conflict)
}

impl Deployer {
    /// The invariant of a run.
    pub open spec fn wf(self) -> bool {
        &&& deploy_chain(self.events@)
        &&& last_event_fits(self.phase, deploy_rank(self.events@.last()))
        &&& (self.phase == DeployPhase::Failed <==> self.error is Some)
        &&& reached(self.phase, DeployPhase::CreateNetwork) ==> self.app is Some
        &&& reached(self.phase, DeployPhase::AttachProxy) ==> self.network_id is Some
        &&& reached(self.phase, DeployPhase::StartContainer) ==> self.new_container is Some
        &&& reached(self.phase, DeployPhase::InspectImage) ==> self.container_ip is Some
        &&& reached(self.phase, DeployPhase::CutIn) ==> {
            &&& self.upstream is Some
            &&& self.upstream.unwrap()@ == upstream_spec(self.container_ip.unwrap()@, self.port as int)
        }
        &&& reached(self.phase, DeployPhase::WarmUp) ==> self.cut_in
        &&& (self.phase == DeployPhase::StopOldContainer || self.phase
            == DeployPhase::RemoveOldContainer) ==> self.app.unwrap().container_id is Some
        &&& (self.app is Some && self.app.unwrap().network_id is Some) ==> {
            &&& self.phase != DeployPhase::CreateNetwork
            &&& self.network_id == self.app.unwrap().network_id
        }
    }

    /// `a` is the call the run asks for in its current phase.
    pub open spec fn action_of(self, a: DeployAction) -> bool {
        match self.phase {
            DeployPhase::ReadApp => a == DeployAction::ReadApp { app_id: self.app_id },
            DeployPhase::CreateNetwork => a matches DeployAction::CreateNetwork {
                name,
                label_key,
                label_value,
            } && name@ == network_name_spec(self.app_id as int) && label_key@ == slug_label_spec()
                && label_value == self.app.unwrap().slug,
            DeployPhase::AttachProxy => a matches DeployAction::AttachProxy {
                network_id,
                container,
            } && network_id == self.network_id.unwrap() && container == self.proxy_container,
            DeployPhase::CreateContainer => a matches DeployAction::CreateContainer {
                image,
                network_id,
                label_key,
                label_value,
            } && image@ == image_name_spec(self.app_id as int) && network_id
                == self.network_id.unwrap() && label_key@ == slug_label_spec() && label_value
                == self.app.unwrap().slug,
            DeployPhase::StartContainer => a matches DeployAction::StartContainer { container_id }
                && container_id == self.new_container.unwrap(),
            DeployPhase::InspectContainer => a matches DeployAction::InspectContainer {
                container_id,
            } && container_id == self.new_container.unwrap(),
            DeployPhase::InspectImage => a matches DeployAction::InspectImage { image } && image@
                == image_name_spec(self.app_id as int),
            DeployPhase::CutIn => a matches DeployAction::Proxy(r) && is_cut_in(
                r,
                self.app_id as int,
                self.upstream.unwrap()@,
            ),
            DeployPhase::CreateRoute => a matches DeployAction::Proxy(r) && is_create_route(
                r,
                self.app_id as int,
                self.app.unwrap().slug@,
                self.upstream.unwrap()@,
            ),
            DeployPhase::WarmUp => a == DeployAction::WarmUp { millis: self.warm_up_millis },
            DeployPhase::CutOver => a matches DeployAction::Proxy(r) && is_cut_over(
                r,
                self.app_id as int,
                self.upstream.unwrap()@,
            ),
            DeployPhase::StopOldContainer => a matches DeployAction::StopContainer {
                container_id,
            } && container_id == self.app.unwrap().container_id.unwrap(),
            DeployPhase::RemoveOldContainer => a matches DeployAction::RemoveContainer {
                container_id,
            } && container_id == self.app.unwrap().container_id.unwrap(),
            DeployPhase::Persist => a matches DeployAction::Persist {
                app_id,
                container_id,
                network_id,
            } && app_id == self.app_id && container_id == self.new_container.unwrap()
                && network_id == self.network_id.unwrap(),
            DeployPhase::Done => a is Finished,
            DeployPhase::Failed => a matches DeployAction::Abort { message } && message@
                == error_message_spec(self.error.unwrap()),
        }
    }
}

/// `b` continues the run of `a`: same app and settings.
pub open spec fn same_run(a: Deployer, b: Deployer) -> bool {
    &&& b.app_id == a.app_id
    &&& b.proxy_container == a.proxy_container
    &&& b.warm_up_millis == a.warm_up_millis
}

/// `b` holds what `a` had learned about the run.
pub open spec fn same_data(a: Deployer, b: Deployer) -> bool {
    &&& b.app == a.app
    &&& b.network_id == a.network_id
    &&& b.new_container == a.new_container
    &&& b.container_ip == a.container_ip
    &&& b.port == a.port
    &&& b.upstream == a.upstream
    &&& b.cut_in == a.cut_in
}

/// `b` is `a` moved to `phase` with `k` more events recorded.
pub open spec fn advanced(a: Deployer, b: Deployer, phase: DeployPhase, k: nat) -> bool {
    &&& same_run(a, b)
    &&& b.phase == phase
    &&& b.error == a.error
    &&& b.events@.len() == a.events@.len() + k
    &&& b.events@.take(a.events@.len() as int) == a.events@
}

/// The `i`-th event that the move from `a` to `b` recorded.
pub open spec fn new_event(a: Deployer, b: Deployer, i: int) -> ProvisionerDeployEvent {
    b.events@[a.events@.len() + i]
}

/// `b` is `a` stopped with error `e`, recording no event.
pub open spec fn failed(a: Deployer, b: Deployer, e: ProvisionerError) -> bool {
    &&& same_run(a, b)
    &&& same_data(a, b)
    &&& b.phase == DeployPhase::Failed
    &&& b.events@ == a.events@
    &&& b.error == Some(e)
}

/// `b` is `a` stopped with a deploy error carrying message `m`.
pub open spec fn failed_deploy(a: Deployer, b: Deployer, m: Seq<char>) -> bool {
    &&& same_run(a, b)
    &&& same_data(a, b)
    &&& b.phase == DeployPhase::Failed
    &&& b.events@ == a.events@
    &&& b.error matches Some(ProvisionerError::DeployError(s)) && s@ == m
}

pub open spec fn on_read_app(a: Deployer, o: Result<DeployReply, ExternalError>, b: Deployer) -> bool {
    match o {
        Err(e) => failed(a, b, from_external_spec(e)),
        Ok(DeployReply::App(None)) => failed(a, b, ProvisionerError::NotFound),
        Ok(DeployReply::App(Some(app))) => {
            &&& b.app == Some(app)
            &&& b.new_container == a.new_container && b.container_ip == a.container_ip && b.port == a.port
            &&& b.upstream == a.upstream && b.cut_in == a.cut_in
            &&& match app.network_id {
                None => {
                    &&& advanced(a, b, DeployPhase::CreateNetwork, 1)
                    &&& b.network_id == a.network_id
                    &&& new_event(a, b, 0) matches ProvisionerDeployEvent::CreatingNetwork {
                        network_name,
                    } && network_name@ == network_name_spec(a.app_id as int)
                },
                Some(id) => {
                    &&& advanced(a, b, DeployPhase::AttachProxy, 1)
                    &&& b.network_id == Some(id)
                    &&& new_event(a, b, 0) == ProvisionerDeployEvent::UsingExistingNetwork {
                        network_id: id,
                    }
                },
            }
        },
        Ok(_) => failed_deploy(a, b, "unexpected reply"@),
    }
}

pub open spec fn on_create_network(
    a: Deployer,
    o: Result<DeployReply, ExternalError>,
    b: Deployer,
) -> bool {
    match o {
        Err(e) => failed(a, b, from_external_spec(e)),
        Ok(DeployReply::NetworkCreated(Some(id))) => {
            &&& advanced(a, b, DeployPhase::AttachProxy, 1)
            &&& b.app == a.app && b.network_id == Some(id)
            &&& b.new_container == a.new_container && b.container_ip == a.container_ip && b.port == a.port
            &&& b.upstream == a.upstream && b.cut_in == a.cut_in
            &&& new_event(a, b, 0) == ProvisionerDeployEvent::CreatedNetwork { network_id: id }
        },
        Ok(DeployReply::NetworkCreated(None)) => failed_deploy(a, b, "Failed to get network id"@),
        Ok(_) => failed_deploy(a, b, "unexpected reply"@),
    }
}

pub open spec fn on_attach_proxy(
    a: Deployer,
    o: Result<DeployReply, ExternalError>,
    b: Deployer,
) -> bool {
    if o is Ok || tolerated_on_attach(o->Err_0) {
        &&& advanced(a, b, DeployPhase::CreateContainer, 1)
        &&& same_data(a, b)
        &&& new_event(a, b, 0) is CreatingNewContainer
    } else {
        failed(a, b, from_external_spec(o->Err_0))
    }
}

pub open spec fn on_create_container(
    a: Deployer,
    o: Result<DeployReply, ExternalError>,
    b: Deployer,
) -> bool {
    match o {
        Err(e) => failed(a, b, from_external_spec(e)),
        Ok(DeployReply::ContainerCreated(id)) => {
            &&& advanced(a, b, DeployPhase::StartContainer, 2)
            &&& b.app == a.app && b.network_id == a.network_id && b.new_container == Some(id)
            &&& b.container_ip == a.container_ip && b.port == a.port && b.upstream == a.upstream && b.cut_in == a.cut_in
            &&& new_event(a, b, 0) == ProvisionerDeployEvent::CreatedNewContainer { container_id: id }
            &&& new_event(a, b, 1) is StartingNewContainer
        },
        Ok(_) => failed_deploy(a, b, "unexpected reply"@),
    }
}

pub open spec fn on_start_container(
    a: Deployer,
    o: Result<DeployReply, ExternalError>,
    b: Deployer,
) -> bool {
    match o {
        Err(e) => failed(a, b, from_external_spec(e)),
        Ok(_) => {
            &&& advanced(a, b, DeployPhase::InspectContainer, 2)
            &&& same_data(a, b)
            &&& new_event(a, b, 0) is StartedNewContainer
            &&& new_event(a, b, 1) is RetrievingContainerIP
        },
    }
}

pub open spec fn on_inspect_container(
    a: Deployer,
    o: Result<DeployReply, ExternalError>,
    b: Deployer,
) -> bool {
    match o {
        Err(e) => failed(a, b, from_external_spec(e)),
        Ok(DeployReply::ContainerInspected(c)) => match container_ip_spec(
            c,
            network_name_spec(a.app_id as int),
        ) {
            Ok(ip) => {
                &&& advanced(a, b, DeployPhase::InspectImage, 1)
                &&& b.app == a.app && b.network_id == a.network_id
                &&& b.new_container == a.new_container
                &&& b.container_ip matches Some(s) && s@ == ip
                &&& b.port == a.port && b.upstream == a.upstream && b.cut_in == a.cut_in
                &&& new_event(a, b, 0) == ProvisionerDeployEvent::RetrievedContainerIP {
                    container_ip: b.container_ip.unwrap(),
                }
            },
            Err(m) => failed_deploy(a, b, m),
        },
        Ok(_) => failed_deploy(a, b, "unexpected reply"@),
    }
}

pub open spec fn on_inspect_image(
    a: Deployer,
    o: Result<DeployReply, ExternalError>,
    b: Deployer,
) -> bool {
    match o {
        Err(e) => failed(a, b, from_external_spec(e)),
        Ok(DeployReply::ImageInspected(keys)) => {
            &&& advanced(a, b, DeployPhase::CutIn, 1)
            &&& b.app == a.app && b.network_id == a.network_id
            &&& b.new_container == a.new_container && b.container_ip == a.container_ip
            &&& b.port == container_port_spec(keys@.map_values(|k: String| k@))
            &&& b.upstream matches Some(u) && u@ == upstream_spec(
                a.container_ip.unwrap()@,
                b.port as int,
            )
            &&& b.cut_in == a.cut_in
            &&& new_event(a, b, 0) is AddingNewContainerAsUpstream
        },
        Ok(_) => failed_deploy(a, b, "unexpected reply"@),
    }
}

pub open spec fn on_cut_in(a: Deployer, o: Result<DeployReply, ExternalError>, b: Deployer) -> bool {
    match o {
        Ok(_) => {
            &&& advanced(a, b, DeployPhase::WarmUp, 0)
            &&& b.app == a.app && b.network_id == a.network_id
            &&& b.new_container == a.new_container && b.container_ip == a.container_ip && b.port == a.port
            &&& b.upstream == a.upstream && b.cut_in
        },
        Err(_) => {
            &&& advanced(a, b, DeployPhase::CreateRoute, 1)
            &&& same_data(a, b)
            &&& new_event(a, b, 0) matches ProvisionerDeployEvent::CreatingNewRoute { route_id }
                && route_id@ == route_id_spec(a.app_id as int)
        },
    }
}

pub open spec fn on_create_route(
    a: Deployer,
    o: Result<DeployReply, ExternalError>,
    b: Deployer,
) -> bool {
    match o {
        Ok(_) => {
            &&& advanced(a, b, DeployPhase::WarmUp, 0)
            &&& b.app == a.app && b.network_id == a.network_id
            &&& b.new_container == a.new_container && b.container_ip == a.container_ip && b.port == a.port
            &&& b.upstream == a.upstream && b.cut_in
        },
        Err(e) => failed(a, b, from_external_spec(e)),
    }
}

pub open spec fn on_warm_up(a: Deployer, o: Result<DeployReply, ExternalError>, b: Deployer) -> bool {
    match o {
        Ok(_) => {
            &&& advanced(a, b, DeployPhase::CutOver, 1)
            &&& same_data(a, b)
            &&& new_event(a, b, 0) is RemovingOldContainerAsUpstream
        },
        Err(e) => failed(a, b, from_external_spec(e)),
    }
}

pub open spec fn on_cut_over(a: Deployer, o: Result<DeployReply, ExternalError>, b: Deployer) -> bool {
    match o {
        Ok(_) => {
            &&& same_data(a, b)
            &&& match a.app.unwrap().container_id {
                Some(old) => {
                    &&& advanced(a, b, DeployPhase::StopOldContainer, 1)
                    &&& new_event(a, b, 0) == ProvisionerDeployEvent::StoppingOldContainer {
                        container_id: old,
                    }
                },
                None => advanced(a, b, DeployPhase::Persist, 0),
            }
        },
        Err(e) => failed(a, b, from_external_spec(e)),
    }
}

pub open spec fn on_stop_old(a: Deployer, o: Result<DeployReply, ExternalError>, b: Deployer) -> bool {
    if o is Ok || tolerated_on_cleanup(o->Err_0) {
        &&& advanced(a, b, DeployPhase::RemoveOldContainer, 1)
        &&& same_data(a, b)
        &&& new_event(a, b, 0) is DeletingOldContainer
    } else {
        failed(a, b, from_external_spec(o->Err_0))
    }
}

pub open spec fn on_remove_old(
    a: Deployer,
    o: Result<DeployReply, ExternalError>,
    b: Deployer,
) -> bool {
    if o is Ok || tolerated_on_cleanup(o->Err_0) {
        &&& advanced(a, b, DeployPhase::Persist, 0)
        &&& same_data(a, b)
    } else {
        failed(a, b, from_external_spec(o->Err_0))
    }
}

pub open spec fn on_persist(a: Deployer, o: Result<DeployReply, ExternalError>, b: Deployer) -> bool {
    match o {
        Ok(_) => {
            &&& advanced(a, b, DeployPhase::Done, 1)
            &&& same_data(a, b)
            &&& new_event(a, b, 0) == ProvisionerDeployEvent::DeployEnd {
                app_id: a.app_id,
                app_slug: a.app.unwrap().slug,
            }
        },
        Err(e) => failed(a, b, from_external_spec(e)),
    }
}

/// The move of a run on the outcome `o` of the call its phase asked for.
pub open spec fn next_state(a: Deployer, o: Result<DeployReply, ExternalError>, b: Deployer) -> bool {
    match a.phase {
        DeployPhase::ReadApp => on_read_app(a, o, b),
        DeployPhase::CreateNetwork => on_create_network(a, o, b),
        DeployPhase::AttachProxy => on_attach_proxy(a, o, b),
        DeployPhase::CreateContainer => on_create_container(a, o, b),
        DeployPhase::StartContainer => on_start_container(a, o, b),
        DeployPhase::InspectContainer => on_inspect_container(a, o, b),
        DeployPhase::InspectImage => on_inspect_image(a, o, b),
        DeployPhase::CutIn => on_cut_in(a, o, b),
        DeployPhase::CreateRoute => on_create_route(a, o, b),
        DeployPhase::WarmUp => on_warm_up(a, o, b),
        DeployPhase::CutOver => on_cut_over(a, o, b),
        DeployPhase::StopOldContainer => on_stop_old(a, o, b),
        DeployPhase::RemoveOldContainer => on_remove_old(a, o, b),
        DeployPhase::Persist => on_persist(a, o, b),
        DeployPhase::Done | DeployPhase::Failed => b == a,
    }
}

proof fn lemma_chain_push(evs: Seq<ProvisionerDeployEvent>, e: ProvisionerDeployEvent)
    requires
        deploy_chain(evs),
        deploy_follows(evs.last(), e),
    ensures
        deploy_chain(evs.push(e)),
{
    let s = evs.push(e);
    assert forall|i: int| 0 < i < s.len() implies deploy_follows(#[trigger] s[i - 1], s[i]) by {
        if i < evs.len() {
            assert(s[i - 1] == evs[i - 1] && s[i] == evs[i]);
        }
    }
}

fn some_string(o: &Option<String>) -> (r: String)
    requires
        o is Some,
    ensures
        r == o.unwrap(),
{
    o.as_ref().unwrap().clone()
}

impl Deployer {
    /// Starts a run for `app_id`, recording `deploy_begin`.
    pub fn new(app_id: i32, proxy_container: String, warm_up_millis: u64) -> (r: Deployer)
        ensures
            r.wf(),
            r.phase == DeployPhase::ReadApp,
            r.app_id == app_id,
            r.proxy_container == proxy_container,
            r.warm_up_millis == warm_up_millis,
            r.app is None,
            r.network_id is None,
            r.new_container is None,
            r.container_ip is None,
            r.upstream is None,
            !r.cut_in,
            r.error is None,
            r.events@.len() == 1,
            r.events@[0] matches ProvisionerDeployEvent::DeployBegin { app_id: id, image_id }
                && id == app_id && image_id@ == image_name_spec(app_id as int),
    {
        let mut events: Vec<ProvisionerDeployEvent> = Vec::new();
        events.push(ProvisionerDeployEvent::DeployBegin { app_id, image_id: image_name(app_id) });
        Deployer {
            phase: DeployPhase::ReadApp,
            app_id,
            proxy_container,
            warm_up_millis,
            app: None,
            network_id: None,
            new_container: None,
            container_ip: None,
            port: 80,
            upstream: None,
            cut_in: false,
            events,
            error: None,
        }
    }

    fn emit(&mut self, e: ProvisionerDeployEvent)
        requires
            deploy_chain(old(self).events@),
            deploy_follows(old(self).events@.last(), e),
        ensures
            final(self).events@ == old(self).events@.push(e),
            deploy_chain(final(self).events@),
            same_run(*old(self), *final(self)),
            same_data(*old(self), *final(self)),
            final(self).phase == old(self).phase,
            final(self).error == old(self).error,
    {
        proof {
            lemma_chain_push(self.events@, e);
        }
        self.events.push(e);
    }

    fn fail(&mut self, e: ProvisionerError)
        ensures
            failed(*old(self), *final(self), e),
    {
        self.phase = DeployPhase::Failed;
        self.error = Some(e);
    }

    fn fail_deploy(&mut self, m: &str)
        ensures
            failed_deploy(*old(self), *final(self), m@),
    {
        self.phase = DeployPhase::Failed;
        self.error = Some(ProvisionerError::DeployError(String::from_str(m)));
    }

    fn app_slug(&self) -> (r: String)
        requires
            self.app is Some,
        ensures
            r == self.app.unwrap().slug,
    {
        self.app.as_ref().unwrap().slug.clone()
    }

    fn old_container(&self) -> (r: Option<String>)
        requires
            self.app is Some,
        ensures
            r == self.app.unwrap().container_id,
    {
        copy_opt(&self.app.as_ref().unwrap().container_id)
    }

    /// The call the run asks for in its current phase.
    pub fn action(&self) -> (r: DeployAction)
        requires
            self.wf(),
        ensures
            self.action_of(r),
    {
        match self.phase {
            DeployPhase::ReadApp => DeployAction::ReadApp { app_id: self.app_id },
            DeployPhase::CreateNetwork => DeployAction::CreateNetwork {
                name: network_name(self.app_id),
                label_key: slug_label(),
                label_value: self.app_slug(),
            },
            DeployPhase::AttachProxy => DeployAction::AttachProxy {
                network_id: some_string(&self.network_id),
                container: self.proxy_container.clone(),
            },
            DeployPhase::CreateContainer => DeployAction::CreateContainer {
                image: image_name(self.app_id),
                network_id: some_string(&self.network_id),
                label_key: slug_label(),
                label_value: self.app_slug(),
            },
            DeployPhase::StartContainer => DeployAction::StartContainer {
                container_id: some_string(&self.new_container),
            },
            DeployPhase::InspectContainer => DeployAction::InspectContainer {
                container_id: some_string(&self.new_container),
            },
            DeployPhase::InspectImage => DeployAction::InspectImage { image: image_name(self.app_id) },
            DeployPhase::CutIn => {
                let upstream = some_string(&self.upstream);
                DeployAction::Proxy(cut_in_request(self.app_id, upstream.as_str()))
            },
            DeployPhase::CreateRoute => {
                let upstream = some_string(&self.upstream);
                let slug = self.app_slug();
                DeployAction::Proxy(
                    create_route_request(self.app_id, slug.as_str(), upstream.as_str()),
                )
            },
            DeployPhase::WarmUp => DeployAction::WarmUp { millis: self.warm_up_millis },
            DeployPhase::CutOver => {
                let upstream = some_string(&self.upstream);
                DeployAction::Proxy(replace_upstream_list(self.app_id, upstream.as_str()))
            },
            DeployPhase::StopOldContainer => {
                let old = self.old_container();
                DeployAction::StopContainer { container_id: some_string(&old) }
            },
            DeployPhase::RemoveOldContainer => {
                let old = self.old_container();
                DeployAction::RemoveContainer { container_id: some_string(&old) }
            },
            DeployPhase::Persist => DeployAction::Persist {
                app_id: self.app_id,
                container_id: some_string(&self.new_container),
                network_id: some_string(&self.network_id),
            },
            DeployPhase::Done => DeployAction::Finished,
            DeployPhase::Failed => DeployAction::Abort { message: self.error.as_ref().unwrap().message() },
        }
    }

    fn read_app(&mut self, o: Result<DeployReply, ExternalError>)
        requires
            old(self).wf(),
            old(self).phase == DeployPhase::ReadApp,
        ensures
            final(self).wf(),
            on_read_app(*old(self), o, *final(self)),
    {
        let ghost a = *self;
        match o {
            Err(e) => self.fail(ProvisionerError::from_external(e)),
            Ok(DeployReply::App(None)) => self.fail(ProvisionerError::NotFound),
            Ok(DeployReply::App(Some(app))) => {
                match &app.network_id {
                    None => {
                        self.emit(
                            ProvisionerDeployEvent::CreatingNetwork {
                                network_name: network_name(self.app_id),
                            },
                        );
                        self.phase = DeployPhase::CreateNetwork;
                    },
                    Some(id) => {
                        self.emit(
                            ProvisionerDeployEvent::UsingExistingNetwork { network_id: id.clone() },
                        );
                        self.network_id = Some(id.clone());
                        self.phase = DeployPhase::AttachProxy;
                    },
                }
                self.app = Some(app);
                assert(self.events@.take(a.events@.len() as int) =~= a.events@);
            },
            Ok(_) => self.fail_deploy("unexpected reply"),
        }
    }

    fn create_network(&mut self, o: Result<DeployReply, ExternalError>)
        requires
            old(self).wf(),
            old(self).phase == DeployPhase::CreateNetwork,
        ensures
            final(self).wf(),
            on_create_network(*old(self), o, *final(self)),
    {
        let ghost a = *self;
        match o {
            Err(e) => self.fail(ProvisionerError::from_external(e)),
            Ok(DeployReply::NetworkCreated(Some(id))) => {
                self.emit(ProvisionerDeployEvent::CreatedNetwork { network_id: id.clone() });
                self.network_id = Some(id);
                self.phase = DeployPhase::AttachProxy;
                assert(self.events@.take(a.events@.len() as int) =~= a.events@);
            },
            Ok(DeployReply::NetworkCreated(None)) => self.fail_deploy("Failed to get network id"),
            Ok(_) => self.fail_deploy("unexpected reply"),
        }
    }

    fn attach_proxy(&mut self, o: Result<DeployReply, ExternalError>)
        requires
            old(self).wf(),
            old(self).phase == DeployPhase::AttachProxy,
        ensures
            final(self).wf(),
            on_attach_proxy(*old(self), o, *final(self)),
    {
        let ghost a = *self;
        let tolerated = match &o {
            Ok(_) => true,
            Err(ExternalError::Engine { kind, .. }) => *kind == EngineErrorKind::Forbidden || *kind
                == EngineErrorKind::Conflict,
            Err(_) => false,
        };
        if tolerated {
            self.emit(ProvisionerDeployEvent::CreatingNewContainer);
            self.phase = DeployPhase::CreateContainer;
            assert(self.events@.take(a.events@.len() as int) =~= a.events@);
        } else {
            match o {
                Err(e) => self.fail(ProvisionerError::from_external(e)),
                Ok(_) => {},
            }
        }
    }

    fn create_container(&mut self, o: Result<DeployReply, ExternalError>)
        requires
            old(self).wf(),
            old(self).phase == DeployPhase::CreateContainer,
        ensures
            final(self).wf(),
            on_create_container(*old(self), o, *final(self)),
    {
        let ghost a = *self;
        match o {
            Err(e) => self.fail(ProvisionerError::from_external(e)),
            Ok(DeployReply::ContainerCreated(id)) => {
                self.emit(ProvisionerDeployEvent::CreatedNewContainer { container_id: id.clone() });
                self.emit(ProvisionerDeployEvent::StartingNewContainer);
                self.new_container = Some(id);
                self.phase = DeployPhase::StartContainer;
                assert(self.events@.take(a.events@.len() as int) =~= a.events@);
            },
            Ok(_) => self.fail_deploy("unexpected reply"),
        }
    }

    fn start_container(&mut self, o: Result<DeployReply, ExternalError>)
        requires
            old(self).wf(),
            old(self).phase == DeployPhase::StartContainer,
        ensures
            final(self).wf(),
            on_start_container(*old(self), o, *final(self)),
    {
        let ghost a = *self;
        match o {
            Err(e) => self.fail(ProvisionerError::from_external(e)),
            Ok(_) => {
                self.emit(ProvisionerDeployEvent::StartedNewContainer);
                self.emit(ProvisionerDeployEvent::RetrievingContainerIP);
                self.phase = DeployPhase::InspectContainer;
                assert(self.events@.take(a.events@.len() as int) =~= a.events@);
            },
        }
    }

    fn inspect_container(&mut self, o: Result<DeployReply, ExternalError>)
        requires
            old(self).wf(),
            old(self).phase == DeployPhase::InspectContainer,
        ensures
            final(self).wf(),
            on_inspect_container(*old(self), o, *final(self)),
    {
        let ghost a = *self;
        match o {
            Err(e) => self.fail(ProvisionerError::from_external(e)),
            Ok(DeployReply::ContainerInspected(c)) => {
                let name = network_name(self.app_id);
                match container_ip(&c, &name) {
                    Ok(ip) => {
                        self.emit(
                            ProvisionerDeployEvent::RetrievedContainerIP { container_ip: ip.clone() },
                        );
                        self.container_ip = Some(ip);
                        self.phase = DeployPhase::InspectImage;
                        assert(self.events@.take(a.events@.len() as int) =~= a.events@);
                    },
                    Err(e) => self.fail(e),
                }
            },
            Ok(_) => self.fail_deploy("unexpected reply"),
        }
    }

    fn inspect_image(&mut self, o: Result<DeployReply, ExternalError>)
        requires
            old(self).wf(),
            old(self).phase == DeployPhase::InspectImage,
        ensures
            final(self).wf(),
            on_inspect_image(*old(self), o, *final(self)),
    {
        let ghost a = *self;
        match o {
            Err(e) => self.fail(ProvisionerError::from_external(e)),
            Ok(DeployReply::ImageInspected(keys)) => {
                let port = container_port(&keys);
                let ip = some_string(&self.container_ip);
                let upstream = upstream_address(ip.as_str(), port);
                self.emit(ProvisionerDeployEvent::AddingNewContainerAsUpstream);
                self.upstream = Some(upstream);
                self.port = port;
                self.phase = DeployPhase::CutIn;
                assert(self.events@.take(a.events@.len() as int) =~= a.events@);
            },
            Ok(_) => self.fail_deploy("unexpected reply"),
        }
    }

    fn cut_in(&mut self, o: Result<DeployReply, ExternalError>)
        requires
            old(self).wf(),
            old(self).phase == DeployPhase::CutIn,
        ensures
            final(self).wf(),
            on_cut_in(*old(self), o, *final(self)),
    {
        let ghost a = *self;
        match o {
            Ok(_) => {
                self.cut_in = true;
                self.phase = DeployPhase::WarmUp;
                assert(self.events@.take(a.events@.len() as int) =~= a.events@);
            },
            Err(_) => {
                self.emit(ProvisionerDeployEvent::CreatingNewRoute { route_id: route_id(self.app_id) });
                self.phase = DeployPhase::CreateRoute;
                assert(self.events@.take(a.events@.len() as int) =~= a.events@);
            },
        }
    }

    fn create_route(&mut self, o: Result<DeployReply, ExternalError>)
        requires
            old(self).wf(),
            old(self).phase == DeployPhase::CreateRoute,
        ensures
            final(self).wf(),
            on_create_route(*old(self), o, *final(self)),
    {
        let ghost a = *self;
        match o {
            Ok(_) => {
                self.cut_in = true;
                self.phase = DeployPhase::WarmUp;
                assert(self.events@.take(a.events@.len() as int) =~= a.events@);
            },
            Err(e) => self.fail(ProvisionerError::from_external(e)),
        }
    }

    fn warm_up(&mut self, o: Result<DeployReply, ExternalError>)
        requires
            old(self).wf(),
            old(self).phase == DeployPhase::WarmUp,
        ensures
            final(self).wf(),
            on_warm_up(*old(self), o, *final(self)),
    {
        let ghost a = *self;
        match o {
            Ok(_) => {
                self.emit(ProvisionerDeployEvent::RemovingOldContainerAsUpstream);
                self.phase = DeployPhase::CutOver;
                assert(self.events@.take(a.events@.len() as int) =~= a.events@);
            },
            Err(e) => self.fail(ProvisionerError::from_external(e)),
        }
    }

    fn cut_over(&mut self, o: Result<DeployReply, ExternalError>)
        requires
            old(self).wf(),
            old(self).phase == DeployPhase::CutOver,
        ensures
            final(self).wf(),
            on_cut_over(*old(self), o, *final(self)),
    {
        let ghost a = *self;
        match o {
            Ok(_) => {
                match self.old_container() {
                    Some(old) => {
                        self.emit(ProvisionerDeployEvent::StoppingOldContainer { container_id: old });
                        self.phase = DeployPhase::StopOldContainer;
                    },
                    None => {
                        self.phase = DeployPhase::Persist;
                    },
                }
                assert(self.events@.take(a.events@.len() as int) =~= a.events@);
            },
            Err(e) => self.fail(ProvisionerError::from_external(e)),
        }
    }

    fn stop_old(&mut self, o: Result<DeployReply, ExternalError>)
        requires
            old(self).wf(),
            old(self).phase == DeployPhase::StopOldContainer,
        ensures
            final(self).wf(),
            on_stop_old(*old(self), o, *final(self)),
    {
        let ghost a = *self;
        let tolerated = match &o {
            Ok(_) => true,
            Err(ExternalError::Engine { kind, .. }) => *kind == EngineErrorKind::NotFound || *kind
                == EngineErrorKind::NotModified,
            Err(_) => false,
        };
        if tolerated {
            self.emit(ProvisionerDeployEvent::DeletingOldContainer);
            self.phase = DeployPhase::RemoveOldContainer;
            assert(self.events@.take(a.events@.len() as int) =~= a.events@);
        } else {
            match o {
                Err(e) => self.fail(ProvisionerError::from_external(e)),
                Ok(_) => {},
            }
        }
    }

    fn remove_old(&mut self, o: Result<DeployReply, ExternalError>)
        requires
            old(self).wf(),
            old(self).phase == DeployPhase::RemoveOldContainer,
        ensures
            final(self).wf(),
            on_remove_old(*old(self), o, *final(self)),
    {
        let ghost a = *self;
        let tolerated = match &o {
            Ok(_) => true,
            Err(ExternalError::Engine { kind, .. }) => *kind == EngineErrorKind::NotFound || *kind
                == EngineErrorKind::NotModified,
            Err(_) => false,
        };
        if tolerated {
            self.phase = DeployPhase::Persist;
            assert(self.events@.take(a.events@.len() as int) =~= a.events@);
        } else {
            match o {
                Err(e) => self.fail(ProvisionerError::from_external(e)),
                Ok(_) => {},
            }
        }
    }

    fn persist(&mut self, o: Result<DeployReply, ExternalError>)
        requires
            old(self).wf(),
            old(self).phase == DeployPhase::Persist,
        ensures
            final(self).wf(),
            on_persist(*old(self), o, *final(self)),
    {
        let ghost a = *self;
        match o {
            Ok(_) => {
                let slug = self.app_slug();
                self.emit(ProvisionerDeployEvent::DeployEnd { app_id: self.app_id, app_slug: slug });
                self.phase = DeployPhase::Done;
                assert(self.events@.take(a.events@.len() as int) =~= a.events@);
            },
            Err(e) => self.fail(ProvisionerError::from_external(e)),
        }
    }

    /// Moves the run on the outcome of the call that [`Self::action`] asked for.
    pub fn step(&mut self, o: Result<DeployReply, ExternalError>)
        requires
            old(self).wf(),
        ensures
            final(self).wf(),
            next_state(*old(self), o, *final(self)),
            final(self).events@.len() >= old(self).events@.len(),
            final(self).events@.take(old(self).events@.len() as int) == old(self).events@,
            same_run(*old(self), *final(self)),
    {
        proof {
            assert(self.events@.take(self.events@.len() as int) =~= self.events@);
        }
        match self.phase {
            DeployPhase::ReadApp => self.read_app(o),
            DeployPhase::CreateNetwork => self.create_network(o),
            DeployPhase::AttachProxy => self.attach_proxy(o),
            DeployPhase::CreateContainer => self.create_container(o),
            DeployPhase::StartContainer => self.start_container(o),
            DeployPhase::InspectContainer => self.inspect_container(o),
            DeployPhase::InspectImage => self.inspect_image(o),
            DeployPhase::CutIn => self.cut_in(o),
            DeployPhase::CreateRoute => self.create_route(o),
            DeployPhase::WarmUp => self.warm_up(o),
            DeployPhase::CutOver => self.cut_over(o),
            DeployPhase::StopOldContainer => self.stop_old(o),
            DeployPhase::RemoveOldContainer => self.remove_old(o),
            DeployPhase::Persist => self.persist(o),
            DeployPhase::Done | DeployPhase::Failed => {},
        }
    }

    /// The run has ended, in success or failure.
    pub fn is_finished(&self) -> (r: bool)
        ensures
            r == (self.phase == DeployPhase::Done || self.phase == DeployPhase::Failed),
    {
        self.phase == DeployPhase::Done || self.phase == DeployPhase::Failed
    }
}

proof fn lemma_chain_increasing(evs: Seq<ProvisionerDeployEvent>)
    requires
        deploy_chain(evs),
    ensures
        forall|i: int, j: int|
            #![trigger evs[i], evs[j]]
            0 <= i < j < evs.len() ==> deploy_rank(evs[i]) < deploy_rank(evs[j]),
    decreases evs.len(),
{
    if evs.len() > 1 {
        let p = evs.drop_last();
        assert(deploy_chain(p)) by {
            assert forall|i: int| 0 < i < p.len() implies deploy_follows(#[trigger] p[i - 1], p[i]) by {
                assert(p[i - 1] == evs[i - 1] && p[i] == evs[i]);
            }
        }
        lemma_chain_increasing(p);
        assert forall|i: int, j: int| 0 <= i < j < evs.len() implies deploy_rank(evs[i]) < deploy_rank(
            evs[j],
        ) by {
            if j < evs.len() - 1 {
                assert(evs[i] == p[i] && evs[j] == p[j]);
            } else {
                assert(deploy_follows(evs[j - 1], evs[j]));
                if i < j - 1 {
                    assert(evs[i] == p[i] && evs[j - 1] == p[j - 1]);
                }
            }
        }
    }
}

/// The deploy events of a run come in transition order, so none is recorded
/// twice: the run starts with `deploy_begin`, every event directly follows its
/// predecessor (skipping only the steps a run may leave out: creating the
/// network, creating the route, retiring an old container), and a successful
/// run ends with `deploy_end`.
pub proof fn lemma_deploy_events_in_order(d: Deployer)
    requires
        d.wf(),
    ensures
        d.events@.len() > 0,
        d.events@[0] is DeployBegin,
        forall|i: int| 0 < i < d.events@.len() ==> deploy_follows(#[trigger] d.events@[i - 1], d.events@[i]),
        forall|i: int, j: int|
            #![trigger d.events@[i], d.events@[j]]
            0 <= i < j < d.events@.len() ==> deploy_rank(d.events@[i]) < deploy_rank(d.events@[j]),
        d.phase == DeployPhase::Done ==> d.events@.last() is DeployEnd,
{
    lemma_chain_increasing(d.events@);
}

/// When the app row already names a network, the run never asks to create
/// one, and it uses the app's network from then on.
pub proof fn lemma_network_reused(d: Deployer, a: DeployAction)
    requires
        d.wf(),
        d.app is Some,
        d.app.unwrap().network_id is Some,
        d.action_of(a),
    ensures
        !(a is CreateNetwork),
        reached(d.phase, DeployPhase::AttachProxy) ==> d.network_id == d.app.unwrap().network_id,
{
}

/// The cut-over is only asked for once the proxy has accepted the new
/// upstream, and it replaces the upstream list with that same address,
/// `<container ip>:<port>`.
pub proof fn lemma_cut_over_after_cut_in(d: Deployer, a: DeployAction)
    requires
        d.wf(),
        d.phase == DeployPhase::CutOver,
        d.action_of(a),
    ensures
        d.cut_in,
        a matches DeployAction::Proxy(r) && is_cut_over(r, d.app_id as int, d.upstream.unwrap()@),
        d.upstream.unwrap()@ == upstream_spec(d.container_ip.unwrap()@, d.port as int),
{
}

/// Once the upstream is chosen, no step changes it, nor the new container or
/// its network: what is cut in is what is cut over and persisted.
pub proof fn lemma_upstream_fixed(a: Deployer, o: Result<DeployReply, ExternalError>, b: Deployer)
    requires
        a.wf(),
        next_state(a, o, b),
        reached(a.phase, DeployPhase::CutIn),
    ensures
        b.upstream == a.upstream,
        b.container_ip == a.container_ip,
        b.port == a.port,
        b.new_container == a.new_container,
        b.network_id == a.network_id,
        a.cut_in ==> b.cut_in,
{
}

/// What a successful run persists is the container it created and the network
/// it created it in, after the proxy was pointed at that container.
pub proof fn lemma_persisted_state(d: Deployer, a: DeployAction)
    requires
        d.wf(),
        d.phase == DeployPhase::Persist,
        d.action_of(a),
    ensures
        a matches DeployAction::Persist { app_id, container_id, network_id } && app_id == d.app_id
            && container_id == d.new_container.unwrap() && network_id == d.network_id.unwrap(),
        d.cut_in,
        d.upstream.unwrap()@ == upstream_spec(d.container_ip.unwrap()@, d.port as int),
{
}

} // verus!
