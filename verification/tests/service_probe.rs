use ginepro::ChangeEvent;
use ginepro::EndpointAddr;
use ginepro::GrpcServiceProbe;
use ginepro::GrpcServiceProbeConfig;
use ginepro::IpAddress;
use ginepro::ProbeError;
use ginepro::ResolutionOutcome;
use ginepro::ServiceDefinition;

fn v4(a: u8, b: u8, c: u8, d: u8, port: u16) -> EndpointAddr {
    EndpointAddr { ip: IpAddress::V4 { a, b, c, d }, port }
}

fn probe_for(hostname: &str, port: u16) -> GrpcServiceProbe {
    let config = GrpcServiceProbeConfig {
        service_definition: ServiceDefinition::from_parts(hostname, port).expect("failed to init"),
        probe_interval_ms: 10,
        endpoint_timeout_ms: None,
        endpoint_connect_timeout_ms: None,
    };
    GrpcServiceProbe::new_with_reporter(config)
}

/// One full pass whose events are all accepted by the change stream.
fn run_pass(probe: &mut GrpcServiceProbe, addrs: Vec<EndpointAddr>) -> Vec<ChangeEvent> {
    let plan = probe
        .begin_probe_pass(&ResolutionOutcome::Resolved(addrs))
        .expect("planning succeeds for a resolved snapshot");
    probe
        .report_and_commit(plan.fresh, true)
        .expect("commit succeeds when everything was delivered");
    plan.changes
}

fn inserted(events: &[ChangeEvent]) -> Vec<EndpointAddr> {
    events
        .iter()
        .filter_map(|e| match e {
            ChangeEvent::Insert(a, _) => Some(*a),
            ChangeEvent::Remove(_) => None,
        })
        .collect()
}

fn removed(events: &[ChangeEvent]) -> Vec<EndpointAddr> {
    events
        .iter()
        .filter_map(|e| match e {
            ChangeEvent::Insert(_, _) => None,
            ChangeEvent::Remove(a) => Some(*a),
        })
        .collect()
}

#[test]
fn first_pass_inserts_every_address() {
    let mut probe = probe_for("test.com", 5000);
    let a = v4(127, 0, 0, 1, 5000);
    let b = v4(127, 0, 0, 2, 5000);
    let events = run_pass(&mut probe, vec![a, b]);
    assert_eq!(events.len(), 2);
    assert_eq!(inserted(&events), vec![a, b]);
    assert!(removed(&events).is_empty());
    assert_eq!(probe.endpoints, vec![a, b]);
}

#[test]
fn load_balance_succeeds_with_churn() {
    // Ten servers introduced one at a time; each pass drops the previous one.
    let mut probe = probe_for("test.com", 5000);
    let servers: Vec<EndpointAddr> = (0u8..10).map(|i| v4(127, 0, 0, i + 1, 5000)).collect();
    let mut seen_in_order: Vec<EndpointAddr> = Vec::new();
    for (i, s) in servers.iter().enumerate() {
        let events = run_pass(&mut probe, vec![*s]);
        if i == 0 {
            assert_eq!(events.len(), 1);
        } else {
            assert_eq!(events.len(), 2);
            assert_eq!(removed(&events), vec![servers[i - 1]]);
        }
        assert_eq!(inserted(&events), vec![*s]);
        seen_in_order.extend(inserted(&events));
    }
    // Every server was introduced exactly once, in order.
    assert_eq!(seen_in_order, servers);
    assert_eq!(probe.endpoints, vec![servers[9]]);
}

#[test]
fn load_balance_happy_path_scenario_calls_all_endpoints() {
    // Three servers resolved simultaneously; all three become available.
    let mut probe = probe_for("test", 5000);
    let a = v4(127, 0, 0, 1, 5000);
    let b = v4(127, 0, 0, 2, 5000);
    let c = v4(127, 0, 0, 3, 5000);
    let events = run_pass(&mut probe, vec![a, b, c]);
    assert_eq!(inserted(&events), vec![a, b, c]);
    assert!(removed(&events).is_empty());
    assert_eq!(probe.endpoints.len(), 3);
}

#[test]
fn connection_timeout_is_not_fatal() {
    // A ghost endpoint with no listener is replaced by a real one on the
    // following pass; the ghost is removed only after the real server is in.
    let config = GrpcServiceProbeConfig {
        service_definition: ServiceDefinition::from_parts("test", 5000).expect("failed to init"),
        probe_interval_ms: 10,
        endpoint_timeout_ms: Some(500),
        endpoint_connect_timeout_ms: Some(500),
    };
    let mut probe = GrpcServiceProbe::new_with_reporter(config);
    let ghost_server = v4(127, 0, 0, 124, 5000);
    let good_server = v4(127, 0, 0, 1, 5000);
    let events = run_pass(&mut probe, vec![ghost_server]);
    assert_eq!(inserted(&events), vec![ghost_server]);
    let events = run_pass(&mut probe, vec![good_server]);
    assert_eq!(inserted(&events), vec![good_server]);
    assert_eq!(removed(&events), vec![ghost_server]);
    assert!(matches!(events[0], ChangeEvent::Insert(_, _)));
    assert!(matches!(events[1], ChangeEvent::Remove(_)));
    assert_eq!(probe.endpoints, vec![good_server]);
}

#[test]
fn idempotent_pass_emits_no_events() {
    let mut probe = probe_for("test.com", 5000);
    let a = v4(10, 0, 0, 1, 5000);
    let b = v4(10, 0, 0, 2, 5000);
    run_pass(&mut probe, vec![a, b]);
    let events = run_pass(&mut probe, vec![a, b]);
    assert!(events.is_empty());
    // Same set in a different order is still a no-op.
    let events = run_pass(&mut probe, vec![b, a]);
    assert!(events.is_empty());
    assert_eq!(probe.endpoints.len(), 2);
}

#[test]
fn empty_resolution_removes_every_endpoint() {
    let mut probe = probe_for("test.com", 5000);
    let a = v4(10, 0, 0, 1, 5000);
    let b = v4(10, 0, 0, 2, 5000);
    run_pass(&mut probe, vec![a, b]);
    let events = run_pass(&mut probe, Vec::new());
    assert!(inserted(&events).is_empty());
    assert_eq!(removed(&events), vec![a, b]);
    assert!(probe.endpoints.is_empty());
}

#[test]
fn rotation_sends_inserts_before_removes() {
    let mut probe = probe_for("test.com", 5000);
    let a = v4(10, 0, 0, 1, 5000);
    let b = v4(10, 0, 0, 2, 5000);
    let c = v4(10, 0, 0, 3, 5000);
    run_pass(&mut probe, vec![a, b]);
    let events = run_pass(&mut probe, vec![b, c]);
    assert_eq!(events.len(), 2);
    assert!(matches!(events[0], ChangeEvent::Insert(addr, _) if addr == c));
    assert!(matches!(events[1], ChangeEvent::Remove(addr) if addr == a));
}

#[test]
fn resolve_failure_keeps_the_known_set() {
    let mut probe = probe_for("test.com", 5000);
    let a = v4(10, 0, 0, 1, 5000);
    run_pass(&mut probe, vec![a]);
    let err = probe
        .begin_probe_pass(&ResolutionOutcome::Failed)
        .expect_err("a failed resolution plans nothing");
    assert_eq!(err, ProbeError::ResolveServiceDefinition);
    assert!(!err.is_fatal());
    assert_eq!(probe.endpoints, vec![a]);
}

#[test]
fn undelivered_changes_are_not_committed() {
    let mut probe = probe_for("test.com", 5000);
    let a = v4(10, 0, 0, 1, 5000);
    run_pass(&mut probe, vec![a]);
    let b = v4(10, 0, 0, 2, 5000);
    let plan = probe
        .begin_probe_pass(&ResolutionOutcome::Resolved(vec![b]))
        .expect("planning succeeds for a resolved snapshot");
    let err = probe.report_and_commit(plan.fresh, false).expect_err("consumer is gone");
    assert_eq!(err, ProbeError::ChangesetSenderClosed);
    assert!(err.is_fatal());
    // The known set is untouched, so the next pass retries the same diff.
    assert_eq!(probe.endpoints, vec![a]);
}

#[test]
fn duplicate_addresses_in_a_snapshot_are_deduplicated() {
    let mut probe = probe_for("test.com", 5000);
    let a = v4(10, 0, 0, 1, 5000);
    let events = run_pass(&mut probe, vec![a, a, a]);
    assert_eq!(events.len(), 1);
    assert_eq!(probe.endpoints, vec![a]);
}

#[test]
fn skipped_addresses_are_dropped_from_a_snapshot() {
    let a = v4(10, 0, 0, 1, 5000);
    let b = v4(10, 0, 0, 2, 5000);
    let c = v4(10, 0, 0, 3, 5000);
    let kept = ginepro::remove_skipped(&vec![a, b, c], &vec![b]);
    assert_eq!(kept, vec![a, c]);
    let kept = ginepro::remove_skipped(&vec![a, b, c], &Vec::new());
    assert_eq!(kept, vec![a, b, c]);
}

#[test]
fn descriptor_carries_the_configured_timeouts() {
    let config = GrpcServiceProbeConfig {
        service_definition: ServiceDefinition::from_parts("test.com", 5000).expect(
            "failed to init",
        ),
        probe_interval_ms: 10,
        endpoint_timeout_ms: Some(500),
        endpoint_connect_timeout_ms: Some(250),
    };
    let probe = GrpcServiceProbe::new_with_reporter(config);
    let d = probe.build_endpoint(&v4(127, 0, 0, 1, 5000));
    assert_eq!(d.uri, "http://127.0.0.1:5000");
    assert_eq!(d.request_timeout_ms, Some(500));
    assert_eq!(d.connect_timeout_ms, Some(250));
    assert_eq!(d.tls_peer_name, None);
}
