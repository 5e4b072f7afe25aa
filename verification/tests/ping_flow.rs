use netprobe::{Args, ResolveError};
use netprobe::net::{Ipv4, CidrV4};
use netprobe::ping::{
    resolve_ping, plan_ping, select_ping_technique, derive_ping_mode, PingMode, PingTechnique,
    PingCall,
};

fn base_args() -> Args {
    Args {
        scan: false,
        ping: true,
        flood: false,
        host: "null".to_string(),
        subnet: "null".to_string(),
        port: "null".to_string(),
        source_host: "null".to_string(),
        source_port: 0,
        interface: "null".to_string(),
        zombie_host: "null".to_string(),
        zombie_port: 0,
        syn: false,
        ack: false,
        connect: false,
        fin: false,
        null: false,
        xmas: false,
        window: false,
        maimon: false,
        idle: false,
        udp: false,
        ip: false,
        icmp: false,
        arp: false,
    }
}

#[test]
fn ping_single_port_is_host_mode() {
    let mut a = base_args();
    a.host = "10.0.0.1".to_string();
    a.port = "80".to_string();
    let p = resolve_ping(&a, true).unwrap();
    assert_eq!(p.mode, PingMode::Host);
    assert_eq!(p.dst_port, Some(80));
}

#[test]
fn ping_subnet_single_port_stays_subnet() {
    let mut a = base_args();
    a.subnet = "192.168.1.0/24".to_string();
    a.port = "443".to_string();
    let p = resolve_ping(&a, true).unwrap();
    assert_eq!(p.mode, PingMode::Subnet);
    assert_eq!(p.start_port, Some(443));
    assert_eq!(p.end_port, Some(443));
    assert_eq!(p.dst_port, Some(443));
    assert_eq!(p.subnet, Some(CidrV4 { addr: Ipv4 { a: 192, b: 168, c: 1, d: 0 }, prefix: 24 }));
}

#[test]
fn ping_range_port_is_host_mode_even_with_subnet() {
    let mut a = base_args();
    a.subnet = "192.168.1.0/24".to_string();
    a.host = "192.168.1.3".to_string();
    a.port = "80-90".to_string();
    let p = resolve_ping(&a, true).unwrap();
    assert_eq!(p.mode, PingMode::Host);
    assert_eq!(p.start_port, Some(80));
    assert_eq!(p.end_port, Some(90));
    assert_eq!(p.dst_port, None);
}

#[test]
fn ping_missing_port_required_is_fatal() {
    let mut a = base_args();
    a.host = "10.0.0.1".to_string();
    assert!(matches!(resolve_ping(&a, true), Err(ResolveError::TargetPortMissing(_))));
}

#[test]
fn ping_missing_port_optional_sweeps() {
    let mut a = base_args();
    a.host = "10.0.0.1".to_string();
    let p = resolve_ping(&a, false).unwrap();
    assert_eq!(p.mode, PingMode::Host);
    assert_eq!(p.dst_port, None);

    let mut a = base_args();
    a.subnet = "10.0.0.0/24".to_string();
    let p = resolve_ping(&a, false).unwrap();
    assert_eq!(p.mode, PingMode::Subnet);
    assert_eq!(p.dst_port, None);
}

#[test]
fn ping_nothing_supplied_is_unresolved() {
    let a = base_args();
    assert!(matches!(plan_ping(&a, false), Err(ResolveError::ModeUnresolved(_))));
}

#[test]
fn ping_syn_outranks_ack() {
    let mut a = base_args();
    a.syn = true;
    a.ack = true;
    assert_eq!(select_ping_technique(&a), PingTechnique::Syn);
}

#[test]
fn ping_technique_priority_udp_before_icmp() {
    let mut a = base_args();
    a.udp = true;
    a.icmp = true;
    assert_eq!(select_ping_technique(&a), PingTechnique::Udp);
    let mut a = base_args();
    a.icmp = true;
    assert_eq!(select_ping_technique(&a), PingTechnique::Icmp);
    let a = base_args();
    assert_eq!(select_ping_technique(&a), PingTechnique::Syn);
}

#[test]
fn ping_plan_host_call() {
    let mut a = base_args();
    a.host = "10.0.0.1".to_string();
    a.port = "80".to_string();
    a.icmp = true;
    let plan = plan_ping(&a, true).unwrap();
    assert_eq!(
        plan.call,
        PingCall::Host {
            technique: PingTechnique::Icmp,
            dst_ipv4: Ipv4 { a: 10, b: 0, c: 0, d: 1 },
            dst_port: Some(80),
        }
    );
}

#[test]
fn ping_plan_subnet_call() {
    let mut a = base_args();
    a.subnet = "10.0.0.0/24".to_string();
    a.port = "80".to_string();
    a.udp = true;
    let plan = plan_ping(&a, true).unwrap();
    assert_eq!(
        plan.call,
        PingCall::Subnet {
            technique: PingTechnique::Udp,
            dst_port: Some(80),
            subnet: CidrV4 { addr: Ipv4 { a: 10, b: 0, c: 0, d: 0 }, prefix: 24 },
        }
    );
}

#[test]
fn ping_plan_range_without_host_fails() {
    let mut a = base_args();
    a.port = "80-90".to_string();
    assert!(matches!(plan_ping(&a, true), Err(ResolveError::MissingTarget)));
}

#[test]
fn ping_derived_mode_matches_resolution() {
    let cases: Vec<(&str, &str, &str, bool)> = vec![
        ("10.0.0.1", "null", "80", true),
        ("10.0.0.1", "null", "null", false),
        ("null", "10.0.0.0/24", "443", true),
        ("null", "10.0.0.0/24", "null", false),
        ("10.0.0.1", "10.0.0.0/24", "80-90", true),
        ("null", "null", "null", false),
    ];
    for (host, subnet, port, require) in cases {
        let mut a = base_args();
        a.host = host.to_string();
        a.subnet = subnet.to_string();
        a.port = port.to_string();
        let p = resolve_ping(&a, require).unwrap();
        assert_eq!(derive_ping_mode(&p), p.mode);
    }
}
