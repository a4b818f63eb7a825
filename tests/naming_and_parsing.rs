use provisioner::address::{container_port, parse_port, strip_prefix_length};
use provisioner::domain;
use provisioner::events::EventType;
use provisioner::model::{ExternalError, EngineErrorKind, ProvisionerError};
use provisioner::naming::{
    decimal_string, image_name, network_name, route_host, route_id, slug_label, upstream_address,
};
use provisioner::proxy::{
    add_upstream, create_route_request, cut_in_request, remove_route, replace_upstream_list,
    ProxyBody, ProxyMethod,
};
use provisioner::records;

#[test]
fn names_of_app_objects() {
    assert_eq!(image_name(42), "haas-apps-42");
    assert_eq!(image_name(0), "haas-apps-0");
    assert_eq!(network_name(42), "haas_apps_42");
    assert_eq!(route_id(42), "haas_apps_42_route");
    assert_eq!(route_id(-3), "haas_apps_-3_route");
    assert_eq!(route_host("blog"), "blog.hackclub.app");
    assert_eq!(upstream_address("172.18.0.2", 3000), "172.18.0.2:3000");
    assert_eq!(slug_label(), "app.hackclub.app_slug");
}

#[test]
fn decimal_rendering_edges() {
    assert_eq!(decimal_string(0), "0");
    assert_eq!(decimal_string(1234567890), "1234567890");
    assert_eq!(decimal_string(-7), "-7");
    assert_eq!(decimal_string(i64::MIN), "-9223372036854775808");
    assert_eq!(decimal_string(i64::MAX), "9223372036854775807");
    assert_eq!(image_name(i32::MAX), "haas-apps-2147483647");
}

#[test]
fn ip_prefix_length_is_stripped() {
    assert_eq!(strip_prefix_length("172.18.0.2/16"), "172.18.0.2");
    assert_eq!(strip_prefix_length("172.18.0.2"), "172.18.0.2");
    assert_eq!(strip_prefix_length("/8"), "");
    assert_eq!(strip_prefix_length("a/b/c"), "a");
}

#[test]
fn port_numbers_parse_like_u16() {
    assert_eq!(parse_port("3000"), Some(3000));
    assert_eq!(parse_port("+80"), Some(80));
    assert_eq!(parse_port("65535"), Some(65535));
    assert_eq!(parse_port("65536"), None);
    assert_eq!(parse_port("0"), Some(0));
    assert_eq!(parse_port(""), None);
    assert_eq!(parse_port("+"), None);
    assert_eq!(parse_port("-1"), None);
    assert_eq!(parse_port("80a"), None);
    assert_eq!(parse_port("99999999999"), None);
    for s in ["1", "22", "443", "8080", "00080"] {
        assert_eq!(parse_port(s), s.parse::<u16>().ok());
    }
}

#[test]
fn container_port_from_exposed_ports() {
    let v = |xs: &[&str]| xs.iter().map(|s| s.to_string()).collect::<Vec<String>>();
    assert_eq!(container_port(&v(&["3000/tcp"])), 3000);
    assert_eq!(container_port(&v(&["53/udp", "8080/tcp", "9000/tcp"])), 8080);
    assert_eq!(container_port(&v(&[])), 80);
    assert_eq!(container_port(&v(&["53/udp"])), 80);
    assert_eq!(container_port(&v(&["http/tcp", "9000/tcp"])), 80);
    assert_eq!(container_port(&v(&["5000tcp"])), 80);
}

#[test]
fn proxy_requests_for_an_app_route() {
    let put = cut_in_request(42, "172.18.0.2:3000");
    assert_eq!(put.method, ProxyMethod::Put);
    assert_eq!(put.path, "/id/haas_apps_42_route/handle/0/upstreams/0");
    match put.body {
        ProxyBody::Upstream { dial } => assert_eq!(dial, "172.18.0.2:3000"),
        other => panic!("unexpected body {:?}", other),
    }
    let post = create_route_request(42, "blog", "172.18.0.2:3000");
    assert_eq!(post.method, ProxyMethod::Post);
    assert_eq!(post.path, "/config/apps/http/servers/srv0/routes");
    match post.body {
        ProxyBody::Route(d) => {
            assert_eq!(d.id, "haas_apps_42_route");
            assert_eq!(d.hosts, vec!["blog.hackclub.app".to_string()]);
            assert_eq!(d.dials, vec!["172.18.0.2:3000".to_string()]);
        }
        other => panic!("unexpected body {:?}", other),
    }
    let patch = replace_upstream_list(42, "172.18.0.2:3000");
    assert_eq!(patch.method, ProxyMethod::Patch);
    assert_eq!(patch.path, "/id/haas_apps_42_route/handle/0/upstreams");
    match patch.body {
        ProxyBody::Upstreams { dials } => assert_eq!(dials, vec!["172.18.0.2:3000".to_string()]),
        other => panic!("unexpected body {:?}", other),
    }
    let add = add_upstream(42, "172.18.0.3:3000");
    assert_eq!(add.method, ProxyMethod::Post);
    assert_eq!(add.path, "/id/haas_apps_42_route/handle/0/upstreams");
    let del = remove_route(42);
    assert_eq!(del.method, ProxyMethod::Delete);
    assert_eq!(del.path, "/id/haas_apps_42_route");
}

#[test]
fn upsert_twice_sends_the_same_requests() {
    let a = cut_in_request(42, "172.18.0.2:3000");
    let b = cut_in_request(42, "172.18.0.2:3000");
    assert_eq!(format!("{:?}", a), format!("{:?}", b));
    let c = create_route_request(42, "blog", "172.18.0.2:3000");
    let d = create_route_request(42, "blog", "172.18.0.2:3000");
    assert_eq!(format!("{:?}", c), format!("{:?}", d));
}

#[test]
fn domain_syntax() {
    assert!(domain::validate_domain("example.com"));
    assert!(domain::validate_domain("a.b-c.example.technology"));
    assert!(!domain::validate_domain("example"));
    assert!(!domain::validate_domain("example.c"));
    assert!(!domain::validate_domain("example.c0m"));
    assert!(!domain::validate_domain(".example.com"));
    assert!(!domain::validate_domain("a..example.com"));
    assert!(!domain::validate_domain("exa_mple.com"));
    assert!(!domain::validate_domain("example.com."));
    let label63 = "a".repeat(63);
    let label64 = "a".repeat(64);
    assert!(domain::validate_domain(&format!("{}.com", label63)));
    assert!(!domain::validate_domain(&format!("{}.com", label64)));
    assert!(records::validate_domain("example.museum"));
    assert!(!records::validate_domain("example.technology"));
    assert!(domain::validate_domain("example.technology"));
}

#[test]
fn type_tags_and_error_messages() {
    assert_eq!(EventType::GitClone.tag(), "git_clone");
    assert_eq!(EventType::DockerBuild.tag(), "docker_build");
    assert_eq!(EventType::Deploy.tag(), "deploy");
    assert_eq!(EventType::Error.tag(), "error");
    assert_eq!(ProvisionerError::GitCloneFailed.message(), "git clone failed");
    assert_eq!(ProvisionerError::DeployError("x".to_string()).message(), "Error while deploying: x");
    assert_eq!(ProvisionerError::Docker("x".to_string()).message(), "Docker error: x");
    assert_eq!(ProvisionerError::Caddy("x".to_string()).message(), "Caddy error: x");
    assert_eq!(ProvisionerError::Diesel("x".to_string()).message(), "Diesel error: x");
    assert_eq!(ProvisionerError::Hyper("x".to_string()).message(), "Hyper error: x");
    assert_eq!(ProvisionerError::Http("x".to_string()).message(), "http error: x");
    assert_eq!(ProvisionerError::IO("x".to_string()).message(), "IO error: x");
    assert_eq!(ProvisionerError::NotFound.message(), "app not found");
    let e = ProvisionerError::from_external(ExternalError::Engine {
        kind: EngineErrorKind::Conflict,
        message: "busy".to_string(),
    });
    assert_eq!(e.message(), "Docker error: busy");
    let p = ProvisionerError::from_external(ExternalError::Proxy { message: "404".to_string() });
    assert_eq!(p.message(), "Caddy error: 404");
    let d = ProvisionerError::from_external(ExternalError::Database { message: "gone".to_string() });
    assert_eq!(d.message(), "Diesel error: gone");
}
