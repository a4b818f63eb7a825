use provisioner::deploy::{DeployAction, DeployReply};
use provisioner::events::{ProvisionerDeployEvent, ProvisionerEvent};
use provisioner::model::{App, ProvisionerError};
use provisioner::session::{BuildSession, BuildStage, ProvisionerManager, SessionAction};

fn session() -> BuildSession {
    BuildSession::new(
        11,
        42,
        "blog".to_string(),
        "https://github.com/example/blog".to_string(),
        "caddy-server".to_string(),
        0,
    )
}

fn type_of(e: &Result<ProvisionerEvent, String>) -> &'static str {
    match e {
        Ok(ProvisionerEvent::GitClone(_)) => "git_clone",
        Ok(ProvisionerEvent::DockerBuild(_)) => "docker_build",
        Ok(ProvisionerEvent::Deploy(_)) => "deploy",
        Err(_) => "error",
    }
}

#[test]
fn git_clone_failure_ends_build_with_error() {
    let mut manager: ProvisionerManager<u32> = ProvisionerManager::new();
    let mut s = session();
    manager.register(11, 7);
    match s.action() {
        SessionAction::Fetch { git_uri } => assert_eq!(git_uri, "https://github.com/example/blog"),
        other => panic!("unexpected action {:?}", other),
    }
    assert!(s.record_git_line(1, "Cloning into '/tmp/x'...".to_string()));
    assert!(s.record_git_line(2, "fatal: repository not found".to_string()));
    s.fetch_finished(3, Err(ProvisionerError::GitCloneFailed));
    assert_eq!(s.stage, BuildStage::Finalizing);
    let last = s.journal.last().unwrap();
    assert_eq!(last.ts, 3);
    assert_eq!(last.event.as_ref().err().unwrap(), "git clone failed");
    // the deploy never ran, so the app row was never written
    assert!(s.deployer.app.is_none());
    match s.action() {
        SessionAction::Finalize { build_id } => assert_eq!(build_id, 11),
        other => panic!("unexpected action {:?}", other),
    }
    let chan = manager.finish_build(&mut s, 4);
    assert_eq!(chan, Some(7));
    assert_eq!(s.ended_at, Some(4));
    assert_eq!(s.stage, BuildStage::Ended);
    assert!(manager.receiver_for_build(11).is_none());
    let types: Vec<&str> = s.journal.iter().map(|e| type_of(&e.event)).collect();
    assert_eq!(types, vec!["git_clone", "git_clone", "error"]);
}

#[test]
fn events_are_journaled_in_stage_order() {
    let mut s = session();
    assert!(s.record_git_line(1, "Cloning".to_string()));
    assert!(!s.record_build_chunk(1, "{\"stream\":\"early\"}".to_string()));
    s.fetch_finished(2, Ok(()));
    assert_eq!(s.stage, BuildStage::Building);
    assert!(!s.record_git_line(3, "late".to_string()));
    match s.action() {
        SessionAction::BuildImage { tag, remove_intermediate, force_remove, label_key, label_value } => {
            assert_eq!(tag, "haas-apps-42");
            assert!(remove_intermediate && force_remove);
            assert_eq!(label_key, "app.hackclub.app_slug");
            assert_eq!(label_value, "blog");
        }
        other => panic!("unexpected action {:?}", other),
    }
    assert!(s.record_build_chunk(4, "{\"stream\":\"Step 1/3\"}".to_string()));
    s.build_finished(5, Ok(()));
    assert_eq!(s.stage, BuildStage::Deploying);
    match s.action() {
        SessionAction::Deploy(DeployAction::ReadApp { app_id }) => assert_eq!(app_id, 42),
        other => panic!("unexpected action {:?}", other),
    }
    // the row is missing: the deploy fails and the build ends with an error
    s.deploy_step(6, Ok(DeployReply::App(None::<App>)));
    assert_eq!(s.stage, BuildStage::Finalizing);
    let types: Vec<&str> = s.journal.iter().map(|e| type_of(&e.event)).collect();
    assert_eq!(types, vec!["git_clone", "docker_build", "deploy", "error"]);
    match &s.journal[2].event {
        Ok(ProvisionerEvent::Deploy(ProvisionerDeployEvent::DeployBegin { app_id, image_id })) => {
            assert_eq!(*app_id, 42);
            assert_eq!(image_id, "haas-apps-42");
        }
        other => panic!("unexpected entry {:?}", other),
    }
    assert_eq!(s.journal[3].event.as_ref().err().unwrap(), "app not found");
}

#[test]
fn successful_deploy_is_journaled_and_finalized() {
    let mut manager: ProvisionerManager<&str> = ProvisionerManager::new();
    manager.register(11, "tx");
    assert_eq!(manager.receiver_for_build(11), Some(&"tx"));
    let mut s = session();
    s.fetch_finished(1, Ok(()));
    s.build_finished(2, Ok(()));
    let replies: Vec<DeployReply> = vec![
        DeployReply::App(Some(App {
            id: 42,
            created_at: 0,
            slug: "blog".to_string(),
            team_id: 1,
            enabled: true,
            container_id: None,
            network_id: Some("N1".to_string()),
        })),
        DeployReply::Done,
        DeployReply::ContainerCreated("C1".to_string()),
        DeployReply::Done,
        DeployReply::ContainerInspected(provisioner::deploy::ContainerInspection {
            network_settings: Some(provisioner::deploy::NetworkSettingsInfo {
                networks: Some(vec![provisioner::deploy::EndpointInfo {
                    network_name: "haas_apps_42".to_string(),
                    ip_address: Some("172.20.0.5".to_string()),
                }]),
            }),
        }),
        DeployReply::ImageInspected(vec!["3000/tcp".to_string()]),
        DeployReply::Done,
        DeployReply::Done,
        DeployReply::Done,
        DeployReply::Done,
    ];
    for (i, r) in replies.into_iter().enumerate() {
        assert_eq!(s.stage, BuildStage::Deploying);
        s.deploy_step(10 + i as i64, Ok(r));
    }
    assert_eq!(s.stage, BuildStage::Finalizing);
    let deploy_tags: Vec<String> = s
        .journal
        .iter()
        .map(|e| match &e.event {
            Ok(ProvisionerEvent::Deploy(d)) => d.tag(),
            _ => panic!("only deploy events were journaled"),
        })
        .collect();
    let recorded: Vec<String> = s.deployer.events.iter().map(|e| e.tag()).collect();
    assert_eq!(deploy_tags, recorded);
    assert_eq!(deploy_tags.last().unwrap(), "deploy_end");
    manager.finish_build(&mut s, 99);
    assert_eq!(s.ended_at, Some(99));
    assert!(manager.receiver_for_build(11).is_none());
}

#[test]
fn calls_outside_their_stage_change_nothing() {
    let mut s = session();
    s.build_finished(1, Ok(()));
    assert_eq!(s.stage, BuildStage::Fetching);
    s.deploy_step(1, Ok(DeployReply::Done));
    assert!(s.journal.is_empty());
    s.fetch_finished(2, Err(ProvisionerError::IO("broken pipe".to_string())));
    s.fetch_finished(3, Ok(()));
    assert_eq!(s.stage, BuildStage::Finalizing);
    assert_eq!(s.journal.len(), 1);
    assert_eq!(s.journal[0].event.as_ref().err().unwrap(), "IO error: broken pipe");
}
