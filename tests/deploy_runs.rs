use provisioner::deploy::{
    ContainerInspection, DeployAction, DeployPhase, DeployReply, Deployer, EndpointInfo,
    NetworkSettingsInfo,
};
use provisioner::model::{App, EngineErrorKind, ExternalError};
use provisioner::proxy::{ProxyBody, ProxyMethod};

/// A scripted container engine, proxy and database for one app.
struct World {
    app: Option<App>,
    exposed_ports: Vec<String>,
    route_exists: bool,
    route_upstreams: Vec<String>,
    old_container_gone: bool,
    network_creates: u32,
    containers: u32,
    stopped: Vec<String>,
    removed: Vec<String>,
    persisted: Option<(i32, String, String)>,
    calls: Vec<String>,
}

fn app(id: i32, slug: &str, container_id: Option<&str>, network_id: Option<&str>) -> App {
    App {
        id,
        created_at: 0,
        slug: slug.to_string(),
        team_id: 1,
        enabled: true,
        container_id: container_id.map(|s| s.to_string()),
        network_id: network_id.map(|s| s.to_string()),
    }
}

fn world(app: Option<App>, exposed_ports: &[&str], route_exists: bool) -> World {
    World {
        app,
        exposed_ports: exposed_ports.iter().map(|s| s.to_string()).collect(),
        route_exists,
        route_upstreams: Vec::new(),
        old_container_gone: false,
        network_creates: 0,
        containers: 0,
        stopped: Vec::new(),
        removed: Vec::new(),
        persisted: None,
        calls: Vec::new(),
    }
}

fn engine_error(kind: EngineErrorKind) -> ExternalError {
    ExternalError::Engine { kind, message: "engine said no".to_string() }
}

fn copy_app(a: &App) -> App {
    app(a.id, &a.slug, a.container_id.as_deref(), a.network_id.as_deref())
}

/// Runs the deployer to its end against the world; returns the abort message
/// if the run failed.
fn drive(d: &mut Deployer, w: &mut World) -> Option<String> {
    for _ in 0..100 {
        let action = d.action();
        let outcome = match action {
            DeployAction::ReadApp { app_id } => {
                w.calls.push(format!("read_app {}", app_id));
                Ok(DeployReply::App(w.app.as_ref().map(copy_app)))
            }
            DeployAction::CreateNetwork { name, label_key, label_value } => {
                w.calls.push(format!("create_network {} {}={}", name, label_key, label_value));
                w.network_creates += 1;
                Ok(DeployReply::NetworkCreated(Some("N_new".to_string())))
            }
            DeployAction::AttachProxy { network_id, container } => {
                w.calls.push(format!("attach {} {}", container, network_id));
                Ok(DeployReply::Done)
            }
            DeployAction::CreateContainer { image, network_id, label_key, label_value } => {
                w.calls.push(format!("create_container {} {} {}={}", image, network_id, label_key, label_value));
                w.containers += 1;
                Ok(DeployReply::ContainerCreated(format!("C_new{}", w.containers)))
            }
            DeployAction::StartContainer { container_id } => {
                w.calls.push(format!("start {}", container_id));
                Ok(DeployReply::Done)
            }
            DeployAction::InspectContainer { container_id } => {
                w.calls.push(format!("inspect_container {}", container_id));
                let name = format!("haas_apps_{}", d.app_id);
                Ok(DeployReply::ContainerInspected(ContainerInspection {
                    network_settings: Some(NetworkSettingsInfo {
                        networks: Some(vec![EndpointInfo {
                            network_name: name,
                            ip_address: Some("172.18.0.2/16".to_string()),
                        }]),
                    }),
                }))
            }
            DeployAction::InspectImage { image } => {
                w.calls.push(format!("inspect_image {}", image));
                Ok(DeployReply::ImageInspected(w.exposed_ports.clone()))
            }
            DeployAction::Proxy(r) => {
                w.calls.push(format!("proxy {:?} {}", r.method, r.path));
                match (r.method, r.body) {
                    (ProxyMethod::Put, ProxyBody::Upstream { dial }) => {
                        if w.route_exists {
                            w.route_upstreams.insert(0, dial);
                            Ok(DeployReply::Done)
                        } else {
                            Err(ExternalError::Proxy { message: "unknown object ID".to_string() })
                        }
                    }
                    (ProxyMethod::Post, ProxyBody::Route(def)) => {
                        w.route_exists = true;
                        w.route_upstreams = def.dials;
                        Ok(DeployReply::Done)
                    }
                    (ProxyMethod::Patch, ProxyBody::Upstreams { dials }) => {
                        w.route_upstreams = dials;
                        Ok(DeployReply::Done)
                    }
                    _ => Err(ExternalError::Proxy { message: "unexpected request".to_string() }),
                }
            }
            DeployAction::WarmUp { millis } => {
                w.calls.push(format!("warm_up {}", millis));
                Ok(DeployReply::Done)
            }
            DeployAction::StopContainer { container_id } => {
                w.calls.push(format!("stop {}", container_id));
                w.stopped.push(container_id);
                if w.old_container_gone {
                    Err(engine_error(EngineErrorKind::NotFound))
                } else {
                    Ok(DeployReply::Done)
                }
            }
            DeployAction::RemoveContainer { container_id } => {
                w.calls.push(format!("remove {}", container_id));
                w.removed.push(container_id);
                if w.old_container_gone {
                    Err(engine_error(EngineErrorKind::NotFound))
                } else {
                    Ok(DeployReply::Done)
                }
            }
            DeployAction::Persist { app_id, container_id, network_id } => {
                w.calls.push(format!("persist {} {} {}", app_id, container_id, network_id));
                w.persisted = Some((app_id, container_id, network_id));
                Ok(DeployReply::Done)
            }
            DeployAction::Finished => return None,
            DeployAction::Abort { message } => return Some(message),
        };
        d.step(outcome);
    }
    panic!("the deploy did not end");
}

fn tags(d: &Deployer) -> Vec<String> {
    d.events.iter().map(|e| e.tag()).collect()
}

#[test]
fn fresh_app_happy_path() {
    let mut w = world(Some(app(42, "blog", None, None)), &["3000/tcp"], false);
    let mut d = Deployer::new(42, "caddy-server".to_string(), 0);
    assert_eq!(drive(&mut d, &mut w), None);
    assert_eq!(d.phase, DeployPhase::Done);
    assert_eq!(
        tags(&d),
        vec![
            "deploy_begin",
            "creating_network",
            "created_network",
            "creating_new_container",
            "created_new_container",
            "starting_new_container",
            "started_new_container",
            "retrieving_container_ip",
            "retrieved_container_ip",
            "adding_new_container_as_upstream",
            "creating_new_route",
            "removing_old_container_as_upstream",
            "deploy_end",
        ]
    );
    match &d.events[0] {
        provisioner::events::ProvisionerDeployEvent::DeployBegin { app_id, image_id } => {
            assert_eq!(*app_id, 42);
            assert_eq!(image_id, "haas-apps-42");
        }
        other => panic!("unexpected first event {:?}", other),
    }
    match &d.events[1] {
        provisioner::events::ProvisionerDeployEvent::CreatingNetwork { network_name } => {
            assert_eq!(network_name, "haas_apps_42")
        }
        other => panic!("unexpected event {:?}", other),
    }
    match &d.events[10] {
        provisioner::events::ProvisionerDeployEvent::CreatingNewRoute { route_id } => {
            assert_eq!(route_id, "haas_apps_42_route")
        }
        other => panic!("unexpected event {:?}", other),
    }
    match &d.events[12] {
        provisioner::events::ProvisionerDeployEvent::DeployEnd { app_id, app_slug } => {
            assert_eq!(*app_id, 42);
            assert_eq!(app_slug, "blog");
        }
        other => panic!("unexpected event {:?}", other),
    }
    assert_eq!(w.network_creates, 1);
    assert_eq!(w.route_upstreams, vec!["172.18.0.2:3000".to_string()]);
    assert_eq!(w.persisted, Some((42, "C_new1".to_string(), "N_new".to_string())));
    assert!(w.calls.contains(&"create_network haas_apps_42 app.hackclub.app_slug=blog".to_string()));
    assert!(w.calls.contains(&"attach caddy-server N_new".to_string()));
    assert!(w.calls.contains(&"create_container haas-apps-42 N_new app.hackclub.app_slug=blog".to_string()));
    assert!(w.stopped.is_empty() && w.removed.is_empty());
}

#[test]
fn redeploy_of_running_app() {
    let mut w = world(Some(app(42, "blog", Some("C_old"), Some("N1"))), &["3000/tcp"], true);
    w.route_upstreams = vec!["172.18.0.9:3000".to_string()];
    let mut d = Deployer::new(42, "caddy-server".to_string(), 0);
    assert_eq!(drive(&mut d, &mut w), None);
    assert_eq!(w.network_creates, 0);
    assert!(!w.calls.iter().any(|c| c.starts_with("create_network")));
    assert_eq!(
        tags(&d),
        vec![
            "deploy_begin",
            "using_existing_network",
            "creating_new_container",
            "created_new_container",
            "starting_new_container",
            "started_new_container",
            "retrieving_container_ip",
            "retrieved_container_ip",
            "adding_new_container_as_upstream",
            "removing_old_container_as_upstream",
            "stopping_old_container",
            "deleting_old_container",
            "deploy_end",
        ]
    );
    match &d.events[1] {
        provisioner::events::ProvisionerDeployEvent::UsingExistingNetwork { network_id } => {
            assert_eq!(network_id, "N1")
        }
        other => panic!("unexpected event {:?}", other),
    }
    // the old container is retired only after the cut-over
    let cut_over = w.calls.iter().position(|c| c.starts_with("proxy Patch")).unwrap();
    let stop = w.calls.iter().position(|c| c == "stop C_old").unwrap();
    let remove = w.calls.iter().position(|c| c == "remove C_old").unwrap();
    assert!(cut_over < stop && stop < remove);
    let (_, container, network) = w.persisted.clone().unwrap();
    assert_ne!(container, "C_old");
    assert_eq!(network, "N1");
    assert_eq!(w.route_upstreams, vec!["172.18.0.2:3000".to_string()]);
}

#[test]
fn redeploy_with_old_container_already_removed() {
    let mut w = world(Some(app(42, "blog", Some("C_old"), Some("N1"))), &["3000/tcp"], true);
    w.old_container_gone = true;
    let mut d = Deployer::new(42, "caddy-server".to_string(), 0);
    assert_eq!(drive(&mut d, &mut w), None);
    assert_eq!(tags(&d).last().unwrap(), "deploy_end");
    assert_eq!(w.stopped, vec!["C_old".to_string()]);
    assert_eq!(w.removed, vec!["C_old".to_string()]);
    assert_eq!(w.persisted.clone().unwrap().1, "C_new1");
}

#[test]
fn route_missing_on_cut_in() {
    let mut w = world(Some(app(7, "shop", None, Some("N7"))), &["8080/tcp"], false);
    let mut d = Deployer::new(7, "caddy-server".to_string(), 0);
    assert_eq!(drive(&mut d, &mut w), None);
    let t = tags(&d);
    assert!(t.contains(&"creating_new_route".to_string()));
    assert_eq!(t.last().unwrap(), "deploy_end");
    assert!(d.error.is_none());
    let put = w.calls.iter().position(|c| c == "proxy Put /id/haas_apps_7_route/handle/0/upstreams/0").unwrap();
    let post = w.calls.iter().position(|c| c == "proxy Post /config/apps/http/servers/srv0/routes").unwrap();
    let warm = w.calls.iter().position(|c| c.starts_with("warm_up")).unwrap();
    assert!(put < post && post < warm);
    assert_eq!(w.route_upstreams, vec!["172.18.0.2:8080".to_string()]);
}

#[test]
fn image_without_exposed_ports_uses_port_80() {
    let mut w = world(Some(app(5, "site", None, None)), &[], false);
    let mut d = Deployer::new(5, "caddy-server".to_string(), 0);
    assert_eq!(drive(&mut d, &mut w), None);
    assert_eq!(d.port, 80);
    assert_eq!(d.upstream.as_deref(), Some("172.18.0.2:80"));
    assert_eq!(w.route_upstreams, vec!["172.18.0.2:80".to_string()]);
}

#[test]
fn route_exists_upsert_puts_upstream_first() {
    let mut w = world(Some(app(3, "api", None, Some("N3"))), &["53/udp", "9000/tcp"], true);
    w.route_upstreams = vec!["172.18.0.9:9000".to_string()];
    let mut d = Deployer::new(3, "caddy-server".to_string(), 1500);
    assert_eq!(drive(&mut d, &mut w), None);
    assert!(!tags(&d).contains(&"creating_new_route".to_string()));
    assert!(w.calls.contains(&"warm_up 1500".to_string()));
    assert!(!w.calls.iter().any(|c| c.starts_with("proxy Post")));
    assert_eq!(w.route_upstreams, vec!["172.18.0.2:9000".to_string()]);
}

#[test]
fn missing_app_row_fails_with_not_found() {
    let mut w = world(None, &[], false);
    let mut d = Deployer::new(9, "caddy-server".to_string(), 0);
    assert_eq!(drive(&mut d, &mut w), Some("app not found".to_string()));
    assert_eq!(d.phase, DeployPhase::Failed);
    assert_eq!(tags(&d), vec!["deploy_begin"]);
    assert!(w.persisted.is_none());
}

#[test]
fn engine_error_on_stop_is_fatal() {
    let mut d = Deployer::new(42, "caddy-server".to_string(), 0);
    let a = app(42, "blog", Some("C_old"), Some("N1"));
    d.step(Ok(DeployReply::App(Some(a))));
    d.step(Ok(DeployReply::Done));
    d.step(Ok(DeployReply::ContainerCreated("C2".to_string())));
    d.step(Ok(DeployReply::Done));
    d.step(Ok(DeployReply::ContainerInspected(ContainerInspection {
        network_settings: Some(NetworkSettingsInfo {
            networks: Some(vec![EndpointInfo {
                network_name: "haas_apps_42".to_string(),
                ip_address: Some("10.0.0.3".to_string()),
            }]),
        }),
    })));
    d.step(Ok(DeployReply::ImageInspected(vec![])));
    d.step(Ok(DeployReply::Done));
    d.step(Ok(DeployReply::Done));
    d.step(Ok(DeployReply::Done));
    assert_eq!(d.phase, DeployPhase::StopOldContainer);
    d.step(Err(engine_error(EngineErrorKind::Other)));
    assert_eq!(d.phase, DeployPhase::Failed);
    match d.action() {
        DeployAction::Abort { message } => assert_eq!(message, "Docker error: engine said no"),
        other => panic!("unexpected action {:?}", other),
    }
}

#[test]
fn attach_already_attached_is_not_fatal() {
    let mut d = Deployer::new(1, "caddy-server".to_string(), 0);
    d.step(Ok(DeployReply::App(Some(app(1, "a", None, Some("N")))))); 
    assert_eq!(d.phase, DeployPhase::AttachProxy);
    d.step(Err(engine_error(EngineErrorKind::Forbidden)));
    assert_eq!(d.phase, DeployPhase::CreateContainer);
    let mut e = Deployer::new(1, "caddy-server".to_string(), 0);
    e.step(Ok(DeployReply::App(Some(app(1, "a", None, Some("N"))))));
    e.step(Err(ExternalError::Engine { kind: EngineErrorKind::Other, message: "down".to_string() }));
    assert_eq!(e.phase, DeployPhase::Failed);
}

#[test]
fn missing_network_settings_is_a_deploy_error() {
    let mut d = Deployer::new(2, "caddy-server".to_string(), 0);
    d.step(Ok(DeployReply::App(Some(app(2, "b", None, Some("N"))))));
    d.step(Ok(DeployReply::Done));
    d.step(Ok(DeployReply::ContainerCreated("C".to_string())));
    d.step(Ok(DeployReply::Done));
    d.step(Ok(DeployReply::ContainerInspected(ContainerInspection { network_settings: None })));
    assert_eq!(d.phase, DeployPhase::Failed);
    match d.action() {
        DeployAction::Abort { message } => {
            assert_eq!(message, "Error while deploying: Failed to get network settings")
        }
        other => panic!("unexpected action {:?}", other),
    }
}

#[test]
fn network_create_without_id_fails() {
    let mut d = Deployer::new(2, "caddy-server".to_string(), 0);
    d.step(Ok(DeployReply::App(Some(app(2, "b", None, None)))));
    d.step(Ok(DeployReply::NetworkCreated(None)));
    assert_eq!(d.phase, DeployPhase::Failed);
}
