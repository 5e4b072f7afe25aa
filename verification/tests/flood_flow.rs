use netprobe::{Args, ResolveError, GetTargetPortFailed, AutoInferScanTypeError, IdleScanValueError};
use netprobe::net::Ipv4;
use netprobe::flood::{
    resolve_flood, plan_flood, select_flood_technique, derive_flood_mode, FloodMode,
    FloodTechnique, FloodCall,
};

fn base_args() -> Args {
    Args {
        scan: false,
        ping: false,
        flood: true,
        host: "null".to_string(),
        subnet: "null".to_string(),
        port: "null".to_string(),
        source_host: "null".to_string(),
        source_port: 0,
        interface: "null".to_string(),
        zombie_host: "null".to_string(),
        zombie_port: 0,
        syn: false,
        ack: false,
        connect: false,
        fin: false,
        null: false,
        xmas: false,
        window: false,
        maimon: false,
        idle: false,
        udp: false,
        ip: false,
        icmp: false,
        arp: false,
    }
}

#[test]
fn flood_range_port_is_host_mode() {
    let mut a = base_args();
    a.host = "10.0.0.1".to_string();
    a.port = "80-90".to_string();
    let p = resolve_flood(&a).unwrap();
    assert_eq!(p.mode, FloodMode::Host);
    assert_eq!(p.start_port, Some(80));
    assert_eq!(p.end_port, Some(90));
}

#[test]
fn flood_single_port_is_host_mode() {
    let mut a = base_args();
    a.host = "10.0.0.1".to_string();
    a.port = "80".to_string();
    let p = resolve_flood(&a).unwrap();
    assert_eq!(p.mode, FloodMode::Host);
    assert_eq!(p.dst_port, Some(80));
    let plan = plan_flood(&a).unwrap();
    assert_eq!(
        plan.call,
        FloodCall::Host {
            technique: FloodTechnique::Syn,
            dst_ipv4: Ipv4 { a: 10, b: 0, c: 0, d: 1 },
            dst_port: Some(80),
        }
    );
}

#[test]
fn flood_single_port_without_host_fails() {
    let mut a = base_args();
    a.port = "80".to_string();
    assert!(matches!(plan_flood(&a), Err(ResolveError::MissingTarget)));
}

#[test]
fn flood_missing_port_is_fatal() {
    let mut a = base_args();
    a.host = "10.0.0.1".to_string();
    assert!(matches!(resolve_flood(&a), Err(ResolveError::TargetPortMissing(_))));
}

#[test]
fn flood_syn_outranks_ack() {
    let mut a = base_args();
    a.syn = true;
    a.ack = true;
    assert_eq!(select_flood_technique(&a), FloodTechnique::Syn);
}

#[test]
fn flood_technique_priority_icmp_before_udp() {
    let mut a = base_args();
    a.icmp = true;
    a.udp = true;
    assert_eq!(select_flood_technique(&a), FloodTechnique::Icmp);
    let a = base_args();
    assert_eq!(select_flood_technique(&a), FloodTechnique::Syn);
}

#[test]
fn flood_plan_default_host_call() {
    let mut a = base_args();
    a.host = "10.0.0.1".to_string();
    a.port = "80-90".to_string();
    let plan = plan_flood(&a).unwrap();
    assert_eq!(
        plan.call,
        FloodCall::Host {
            technique: FloodTechnique::Syn,
            dst_ipv4: Ipv4 { a: 10, b: 0, c: 0, d: 1 },
            dst_port: None,
        }
    );
}

#[test]
fn flood_plan_icmp_call_has_own_shape() {
    let mut a = base_args();
    a.host = "10.0.0.1".to_string();
    a.port = "80-90".to_string();
    a.icmp = true;
    let plan = plan_flood(&a).unwrap();
    assert_eq!(plan.call, FloodCall::Icmp { dst_ipv4: Ipv4 { a: 10, b: 0, c: 0, d: 1 } });
}

#[test]
fn flood_plan_range_without_host_fails() {
    let mut a = base_args();
    a.port = "80-90".to_string();
    assert!(matches!(plan_flood(&a), Err(ResolveError::MissingTarget)));
}

#[test]
fn flood_derived_mode_matches_resolution() {
    let cases: Vec<&str> = vec!["80", "80-90"];
    for port in cases {
        let mut a = base_args();
        a.host = "10.0.0.1".to_string();
        a.port = port.to_string();
        let p = resolve_flood(&a).unwrap();
        assert_eq!(derive_flood_mode(&p), p.mode);
    }
}

#[test]
fn error_messages() {
    assert_eq!(GetTargetPortFailed::new().message(), "please set target port");
    assert_eq!(
        AutoInferScanTypeError::new().message(),
        "can not auto infer scan type, please set host, port or interface at least one"
    );
    assert_eq!(IdleScanValueError::new().message(), "can not find the zombie host or port");
}

#[test]
fn tuning_constants() {
    assert_eq!(netprobe::DEFAULT_TIMEOUT_MS, 100);
    assert_eq!(netprobe::DEFAULT_MAX_LOOP, 64);
    assert_eq!(netprobe::AUTO_THREADS, 0);
    assert_eq!(netprobe::MAX_SAME_PACKET, 1024);
    assert_eq!(netprobe::MAX_FLOOD_PACKET, 1024);
}
