use apex_kube_manager::forward::ForwardError;
use apex_kube_manager::resolve::{
    find_named_port, label_selector, pick_running_pod, pod_ports, resolve_target_port, service_ports,
    service_selector, PodSummary, PortDecl, ServicePortDecl, TargetPort,
};

fn pod(name: &str, phase: &str) -> PodSummary {
    PodSummary { name: Some(name.to_string()), phase: Some(phase.to_string()), ports: vec![] }
}

fn decl(name: Option<&str>, port: i32, protocol: Option<&str>) -> PortDecl {
    PortDecl { name: name.map(|n| n.to_string()), container_port: port, protocol: protocol.map(|p| p.to_string()) }
}

fn sport(name: Option<&str>, port: i32, target: Option<TargetPort>) -> ServicePortDecl {
    ServicePortDecl { name: name.map(|n| n.to_string()), port, target_port: target, protocol: None }
}

#[test]
fn running_pod_is_chosen_over_pending() {
    let pods = vec![pod("web-pending", "Pending"), pod("web-running", "Running")];
    let r = pick_running_pod(&"web".to_string(), &"app=x".to_string(), &pods);
    assert_eq!(r.unwrap(), "web-running");
}

#[test]
fn first_running_pod_wins() {
    let pods = vec![pod("a", "Running"), pod("b", "Running")];
    let r = pick_running_pod(&"svc".to_string(), &"app=x".to_string(), &pods);
    assert_eq!(r.unwrap(), "a");
}

#[test]
fn all_pending_is_a_resolution_error() {
    let pods = vec![pod("a", "Pending"), pod("b", "Pending")];
    let r = pick_running_pod(&"web".to_string(), &"app=x".to_string(), &pods);
    match r {
        Err(ForwardError::NoRunningPod(s, sel)) => {
            assert_eq!(s, "web");
            assert_eq!(sel, "app=x");
        }
        other => panic!("unexpected {:?}", other),
    }
}

#[test]
fn running_pod_without_name_is_skipped() {
    let nameless = PodSummary { name: None, phase: Some("Running".to_string()), ports: vec![] };
    let pods = vec![nameless, pod("named", "Running")];
    let r = pick_running_pod(&"svc".to_string(), &"app=x".to_string(), &pods);
    assert_eq!(r.unwrap(), "named");
}

#[test]
fn phase_must_match_exactly() {
    let pods = vec![pod("a", "running"), pod("b", "Running ")];
    assert!(pick_running_pod(&"svc".to_string(), &"app=x".to_string(), &pods).is_err());
}

#[test]
fn selector_query_joins_terms() {
    let one = vec![("app".to_string(), "x".to_string())];
    assert_eq!(label_selector(&one), "app=x");
    let two = vec![("app".to_string(), "web".to_string()), ("tier".to_string(), "front".to_string())];
    assert_eq!(label_selector(&two), "app=web,tier=front");
    assert_eq!(label_selector(&vec![]), "");
}

#[test]
fn service_without_selector_has_no_pods() {
    let name = "web".to_string();
    match service_selector(&name, &None) {
        Err(ForwardError::NoSelector(s)) => assert_eq!(s, "web"),
        other => panic!("unexpected {:?}", other),
    }
    match service_selector(&name, &Some(vec![])) {
        Err(ForwardError::NoSelector(s)) => assert_eq!(s, "web"),
        other => panic!("unexpected {:?}", other),
    }
    let sel = Some(vec![("app".to_string(), "x".to_string())]);
    assert_eq!(service_selector(&name, &sel).unwrap(), "app=x");
}

#[test]
fn named_target_port_resolves_to_container_port() {
    let decls = vec![decl(Some("metrics"), 9090, None), decl(Some("http"), 8080, None)];
    let sp = sport(Some("web"), 80, Some(TargetPort::Named("http".to_string())));
    assert_eq!(resolve_target_port(&sp, &decls), 8080);
}

#[test]
fn named_target_port_without_match_falls_back_to_service_port() {
    let decls = vec![decl(Some("metrics"), 9090, None)];
    let sp = sport(Some("web"), 80, Some(TargetPort::Named("http".to_string())));
    assert_eq!(resolve_target_port(&sp, &decls), 80);
    assert_eq!(resolve_target_port(&sp, &vec![]), 80);
}

#[test]
fn named_target_port_resolves_in_the_service_listing() {
    let decls = vec![decl(Some("http"), 8080, None)];
    let sps = vec![sport(Some("web"), 80, Some(TargetPort::Named("http".to_string())))];
    assert_eq!(service_ports(&sps, &decls)[0].port, 8080);
    assert_eq!(service_ports(&sps, &vec![])[0].port, 80);
}

#[test]
fn numeric_and_missing_targets() {
    let sp = sport(None, 80, Some(TargetPort::Number(3000)));
    assert_eq!(resolve_target_port(&sp, &vec![]), 3000);
    let sp = sport(None, 443, None);
    assert_eq!(resolve_target_port(&sp, &vec![]), 443);
}

#[test]
fn first_declaration_of_a_name_wins() {
    let decls = vec![decl(None, 1, None), decl(Some("http"), 8080, None), decl(Some("http"), 9000, None)];
    assert_eq!(find_named_port(&decls, &"http".to_string()), Some(8080));
    assert_eq!(find_named_port(&decls, &"grpc".to_string()), None);
}

#[test]
fn service_ports_list_target_ports_in_order() {
    let decls = vec![decl(Some("http"), 8080, None)];
    let sps = vec![
        ServicePortDecl {
            name: Some("web".to_string()),
            port: 80,
            target_port: Some(TargetPort::Named("http".to_string())),
            protocol: None,
        },
        ServicePortDecl { name: None, port: 53, target_port: Some(TargetPort::Number(5353)), protocol: Some("UDP".to_string()) },
    ];
    let r = service_ports(&sps, &decls);
    assert_eq!(r.len(), 2);
    assert_eq!(r[0].port, 8080);
    assert_eq!(r[0].name.as_deref(), Some("web"));
    assert_eq!(r[0].protocol, "TCP");
    assert_eq!(r[1].port, 5353);
    assert_eq!(r[1].name, None);
    assert_eq!(r[1].protocol, "UDP");
}

#[test]
fn pod_ports_are_sorted_and_deduplicated() {
    let decls = vec![
        decl(Some("http"), 8080, None),
        decl(Some("metrics"), 9090, Some("TCP")),
        decl(Some("alt-http"), 8080, Some("UDP")),
        decl(None, 53, Some("UDP")),
    ];
    let r = pod_ports(&decls);
    let ports: Vec<u16> = r.iter().map(|p| p.port).collect();
    assert_eq!(ports, vec![53, 8080, 9090]);
    assert_eq!(r[0].name, None);
    assert_eq!(r[0].protocol, "UDP");
    assert_eq!(r[1].name.as_deref(), Some("http"));
    assert_eq!(r[1].protocol, "TCP");
    assert_eq!(r[2].name.as_deref(), Some("metrics"));
}

#[test]
fn pod_without_ports_lists_none() {
    assert!(pod_ports(&vec![]).is_empty());
}
