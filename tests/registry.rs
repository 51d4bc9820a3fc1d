use apex_kube_manager::forward::{ForwardError, PortForwardStatus, PortHolder, ResourceType};
use apex_kube_manager::registry::PortForwardManager;
use apex_kube_manager::stats::ProxyOutcome;

fn start(m: &mut PortForwardManager<u32>, port: u16, handle: u32) -> Result<apex_kube_manager::forward::PortForwardInfo, ForwardError> {
    m.start_forward(
        "dev".to_string(),
        "default".to_string(),
        ResourceType::Pod,
        "web-0".to_string(),
        "web-0".to_string(),
        port,
        8080,
        handle,
    )
}

#[test]
fn start_returns_a_starting_session() {
    let mut m: PortForwardManager<u32> = PortForwardManager::new();
    let info = start(&mut m, 18080, 1).unwrap();
    assert_eq!(info.status, PortForwardStatus::Starting);
    assert_eq!(info.context, "dev");
    assert_eq!(info.namespace, "default");
    assert_eq!(info.resource_type, ResourceType::Pod);
    assert_eq!(info.pod_name, "web-0");
    assert_eq!(info.local_port, 18080);
    assert_eq!(info.remote_port, 8080);
    assert_eq!(info.total_connections, 0);
    assert_eq!(info.id.len(), 36);
    assert_eq!(info.id.matches('-').count(), 4);
}

#[test]
fn ids_differ_between_sessions() {
    let mut m: PortForwardManager<u32> = PortForwardManager::new();
    let a = start(&mut m, 18080, 1).unwrap();
    let b = start(&mut m, 18081, 2).unwrap();
    assert_ne!(a.id, b.id);
    assert_eq!(m.list_forwards().len(), 2);
}

#[test]
fn second_start_on_a_held_port_is_refused() {
    let mut m: PortForwardManager<u32> = PortForwardManager::new();
    start(&mut m, 18080, 1).unwrap();
    match start(&mut m, 18080, 2) {
        Err(ForwardError::PortInUse(p, PortHolder::ThisRegistry)) => assert_eq!(p, 18080),
        other => panic!("unexpected {:?}", other),
    }
    let id = m.list_forwards()[0].id.clone();
    m.mark_active(&id);
    assert!(matches!(start(&mut m, 18080, 3), Err(ForwardError::PortInUse(18080, PortHolder::ThisRegistry))));
    assert_eq!(m.list_forwards().len(), 1);
}

#[test]
fn check_local_port_reports_the_holder() {
    let mut m: PortForwardManager<u32> = PortForwardManager::new();
    assert!(m.check_local_port(18080, true).is_ok());
    assert!(matches!(m.check_local_port(18080, false), Err(ForwardError::PortInUse(18080, PortHolder::OtherProcess))));
    start(&mut m, 18080, 1).unwrap();
    assert!(matches!(m.check_local_port(18080, true), Err(ForwardError::PortInUse(18080, PortHolder::ThisRegistry))));
    assert!(matches!(m.check_local_port(18080, false), Err(ForwardError::PortInUse(18080, PortHolder::ThisRegistry))));
    assert!(m.is_port_forwarded(18080));
    assert!(!m.is_port_forwarded(18081));
}

#[test]
fn ended_session_frees_its_port() {
    let mut m: PortForwardManager<u32> = PortForwardManager::new();
    let a = start(&mut m, 18080, 1).unwrap();
    m.mark_active(&a.id);
    m.mark_finished(&a.id, true);
    assert_eq!(m.list_forwards()[0].status, PortForwardStatus::Stopped);
    assert!(!m.is_port_forwarded(18080));
    assert!(start(&mut m, 18080, 2).is_ok());
}

#[test]
fn status_transitions_follow_the_lifecycle() {
    let mut m: PortForwardManager<u32> = PortForwardManager::new();
    let a = start(&mut m, 18080, 1).unwrap();
    m.mark_finished(&a.id, true);
    assert_eq!(m.list_forwards()[0].status, PortForwardStatus::Starting);
    m.mark_finished(&a.id, false);
    assert_eq!(m.list_forwards()[0].status, PortForwardStatus::Error);
    m.mark_active(&a.id);
    assert_eq!(m.list_forwards()[0].status, PortForwardStatus::Error);

    let b = start(&mut m, 18081, 2).unwrap();
    m.mark_active(&b.id);
    m.mark_active(&b.id);
    assert_eq!(m.list_forwards()[1].status, PortForwardStatus::Active);
    m.mark_finished(&b.id, false);
    assert_eq!(m.list_forwards()[1].status, PortForwardStatus::Error);
    m.mark_finished(&b.id, true);
    assert_eq!(m.list_forwards()[1].status, PortForwardStatus::Error);
}

#[test]
fn stop_twice_is_ok_then_not_found() {
    let mut m: PortForwardManager<u32> = PortForwardManager::new();
    let a = start(&mut m, 18080, 7).unwrap();
    assert_eq!(m.stop_forward(&a.id).unwrap(), 7);
    match m.stop_forward(&a.id) {
        Err(ForwardError::NotFound(id)) => assert_eq!(id, a.id),
        other => panic!("unexpected {:?}", other),
    }
    assert!(m.list_forwards().is_empty());
}

#[test]
fn stop_unknown_id_changes_nothing() {
    let mut m: PortForwardManager<u32> = PortForwardManager::new();
    start(&mut m, 18080, 1).unwrap();
    assert!(matches!(m.stop_forward(&"nope".to_string()), Err(ForwardError::NotFound(_))));
    assert_eq!(m.list_forwards().len(), 1);
}

#[test]
fn stop_all_on_empty_registry_is_a_no_op() {
    let mut m: PortForwardManager<u32> = PortForwardManager::new();
    assert!(m.stop_all().is_empty());
    assert!(m.list_forwards().is_empty());
}

#[test]
fn stop_all_hands_back_every_handle() {
    let mut m: PortForwardManager<u32> = PortForwardManager::new();
    start(&mut m, 18080, 1).unwrap();
    start(&mut m, 18081, 2).unwrap();
    start(&mut m, 18082, 3).unwrap();
    assert_eq!(m.stop_all(), vec![1, 2, 3]);
    assert!(m.list_forwards().is_empty());
    assert!(!m.is_port_forwarded(18081));
}

#[test]
fn start_keeps_the_other_sessions() {
    let mut m: PortForwardManager<u32> = PortForwardManager::new();
    let a = start(&mut m, 18080, 1).unwrap();
    let b = start(&mut m, 18081, 2).unwrap();
    let l = m.list_forwards();
    assert_eq!(l.len(), 2);
    assert_eq!(l[0].id, a.id);
    assert_eq!(l[1].id, b.id);
}

#[test]
fn insert_with_an_existing_id_replaces_that_session() {
    let mut m: PortForwardManager<u32> = PortForwardManager::new();
    let id = "fixed".to_string();
    let pod = || "p".to_string();
    m.insert_forward(id.clone(), "c".to_string(), "n".to_string(), ResourceType::Pod, pod(), pod(), 18080, 80, 1).unwrap();
    m.insert_forward(id.clone(), "c".to_string(), "n".to_string(), ResourceType::Service, "svc".to_string(), pod(), 18081, 81, 2).unwrap();
    let list = m.list_forwards();
    assert_eq!(list.len(), 1);
    assert_eq!(list[0].local_port, 18081);
    assert_eq!(m.stop_forward(&id).unwrap(), 2);
}

#[test]
fn connection_counters_merge_into_listing() {
    let mut m: PortForwardManager<u32> = PortForwardManager::new();
    let a = start(&mut m, 18080, 1).unwrap();
    assert!(m.record_connection_opened(&a.id));
    assert!(m.record_connection_opened(&a.id));
    m.record_connection_finished(&a.id, ProxyOutcome::Copied { sent: 100, received: 7 });
    let l = &m.list_forwards()[0];
    assert_eq!((l.active_connections, l.total_connections, l.bytes_sent, l.bytes_received), (1, 2, 100, 7));
    m.record_connection_finished(&a.id, ProxyOutcome::Copied { sent: 3, received: 250 });
    m.record_connection_finished(&a.id, ProxyOutcome::Copied { sent: 1, received: 1 });
    let l = &m.list_forwards()[0];
    assert_eq!((l.active_connections, l.total_connections, l.bytes_sent, l.bytes_received), (0, 2, 103, 257));
    assert!(!m.record_connection_opened(&"gone".to_string()));
}

#[test]
fn forward_scenario_on_a_free_port() {
    let mut m: PortForwardManager<u32> = PortForwardManager::new();
    assert!(m.check_local_port(18080, true).is_ok());
    let info = start(&mut m, 18080, 1).unwrap();
    assert_eq!(info.status, PortForwardStatus::Starting);
    m.mark_active(&info.id);
    let l = m.list_forwards();
    assert_eq!(l[0].status, PortForwardStatus::Active);
    assert_eq!(l[0].local_port, 18080);
    let before = l[0].total_connections;
    assert!(m.record_connection_opened(&info.id));
    let (sent_before, received_before) = (l[0].bytes_sent, l[0].bytes_received);
    m.record_connection_finished(&info.id, ProxyOutcome::Copied { sent: 5, received: 11 });
    let l = m.list_forwards();
    assert_eq!(l[0].total_connections, before + 1);
    assert_eq!(l[0].active_connections, 0);
    assert_eq!(l[0].bytes_sent, sent_before + 5);
    assert_eq!(l[0].bytes_received, received_before + 11);
    assert_eq!(m.stop_forward(&info.id).unwrap(), 1);
    assert!(m.list_forwards().is_empty());
    assert!(m.check_local_port(18080, true).is_ok());
}
