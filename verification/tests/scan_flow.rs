use netprobe::{Args, ResolveError};
use netprobe::net::{Ipv4, CidrV4};
use netprobe::scan::{
    resolve_scan, plan_scan, select_scan_technique, derive_scan_mode, ScanMode, ScanTechnique,
    ScanCall, TcpKind, Parameters,
};

fn base_args() -> Args {
    Args {
        scan: true,
        ping: false,
        flood: false,
        host: "null".to_string(),
        subnet: "null".to_string(),
        port: "null".to_string(),
        source_host: "null".to_string(),
        source_port: 0,
        interface: "null".to_string(),
        zombie_host: "null".to_string(),
        zombie_port: 0,
        syn: false,
        ack: false,
        connect: false,
        fin: false,
        null: false,
        xmas: false,
        window: false,
        maimon: false,
        idle: false,
        udp: false,
        ip: false,
        icmp: false,
        arp: false,
    }
}

#[test]
fn single_port_sets_destination() {
    let mut a = base_args();
    a.host = "192.168.1.5".to_string();
    a.port = "80".to_string();
    let p = resolve_scan(&a).unwrap();
    assert_eq!(p.dst_port, Some(80));
    assert_eq!(p.mode, ScanMode::SinglePort);
    assert_eq!(p.dst_ipv4, Some(Ipv4 { a: 192, b: 168, c: 1, d: 5 }));
    assert_eq!(p.start_port, None);
    assert_eq!(p.end_port, None);
}

#[test]
fn range_port_sets_bounds() {
    let mut a = base_args();
    a.host = "10.0.0.1".to_string();
    a.port = "80-8000".to_string();
    let p = resolve_scan(&a).unwrap();
    assert_eq!(p.start_port, Some(80));
    assert_eq!(p.end_port, Some(8000));
    assert_eq!(p.dst_port, None);
    assert_eq!(p.mode, ScanMode::RangePort);
}

#[test]
fn three_segment_port_fails_with_original_string() {
    let mut a = base_args();
    a.host = "10.0.0.1".to_string();
    a.port = "80-8000-90".to_string();
    match resolve_scan(&a) {
        Err(ResolveError::PortSplit(e)) => {
            assert_eq!(e.portstr(), "80-8000-90");
            assert_eq!(e.message(), "can not split range port 80-8000-90");
        }
        _ => panic!("expected the split error"),
    }
}

#[test]
fn missing_port_is_fatal() {
    let a = base_args();
    assert!(matches!(resolve_scan(&a), Err(ResolveError::TargetPortMissing(_))));
    let mut a = base_args();
    a.host = "10.0.0.1".to_string();
    assert!(matches!(resolve_scan(&a), Err(ResolveError::TargetPortMissing(_))));
}

#[test]
fn malformed_addresses_are_fatal() {
    let mut a = base_args();
    a.source_host = "10.0.0".to_string();
    a.port = "80".to_string();
    assert!(matches!(resolve_scan(&a), Err(ResolveError::AddressParse)));

    let mut a = base_args();
    a.zombie_host = "zombie".to_string();
    a.port = "80".to_string();
    assert!(matches!(resolve_scan(&a), Err(ResolveError::AddressParse)));

    let mut a = base_args();
    a.host = "300.0.0.1".to_string();
    a.port = "80".to_string();
    assert!(matches!(resolve_scan(&a), Err(ResolveError::AddressParse)));

    let mut a = base_args();
    a.subnet = "10.0.0.0/40".to_string();
    a.port = "80".to_string();
    assert!(matches!(resolve_scan(&a), Err(ResolveError::SubnetParse)));

    let mut a = base_args();
    a.host = "10.0.0.1".to_string();
    a.port = "80a".to_string();
    assert!(matches!(resolve_scan(&a), Err(ResolveError::PortParse)));
}

#[test]
fn subnet_with_single_port_collapses_range() {
    let mut a = base_args();
    a.subnet = "192.168.1.0/24".to_string();
    a.port = "443".to_string();
    let p = resolve_scan(&a).unwrap();
    assert_eq!(p.mode, ScanMode::Subnet);
    assert_eq!(p.subnet, Some(CidrV4 { addr: Ipv4 { a: 192, b: 168, c: 1, d: 0 }, prefix: 24 }));
    assert_eq!(p.dst_port, Some(443));
    assert_eq!(p.start_port, Some(443));
    assert_eq!(p.end_port, Some(443));
}

#[test]
fn subnet_with_range_port_overrides_mode() {
    let mut a = base_args();
    a.subnet = "192.168.1.0/24".to_string();
    a.port = "80-90".to_string();
    let p = resolve_scan(&a).unwrap();
    assert_eq!(p.mode, ScanMode::RangePort);
    assert!(p.subnet.is_some());
}

#[test]
fn source_and_interface_pass_through() {
    let mut a = base_args();
    a.host = "10.0.0.1".to_string();
    a.port = "80".to_string();
    a.source_host = "10.0.0.2".to_string();
    a.source_port = 5555;
    a.interface = "ens33".to_string();
    let p = resolve_scan(&a).unwrap();
    assert_eq!(p.src_ipv4, Some(Ipv4 { a: 10, b: 0, c: 0, d: 2 }));
    assert_eq!(p.src_port, Some(5555));
    assert_eq!(p.interface, Some("ens33".to_string()));
}

#[test]
fn syn_outranks_ack() {
    let mut a = base_args();
    a.syn = true;
    a.ack = true;
    assert_eq!(select_scan_technique(&a), ScanTechnique::Syn);
}

#[test]
fn technique_priority_order() {
    let mut a = base_args();
    a.arp = true;
    assert_eq!(select_scan_technique(&a), ScanTechnique::Arp);
    a.udp = true;
    assert_eq!(select_scan_technique(&a), ScanTechnique::Udp);
    a.idle = true;
    assert_eq!(select_scan_technique(&a), ScanTechnique::Idle);
    a.fin = true;
    assert_eq!(select_scan_technique(&a), ScanTechnique::Fin);
    a.connect = true;
    assert_eq!(select_scan_technique(&a), ScanTechnique::Connect);
    a.ack = true;
    assert_eq!(select_scan_technique(&a), ScanTechnique::Ack);
}

#[test]
fn default_technique_is_syn() {
    let a = base_args();
    assert_eq!(select_scan_technique(&a), ScanTechnique::Syn);
}

#[test]
fn plan_single_port_default_is_tcp_syn() {
    let mut a = base_args();
    a.host = "10.0.0.1".to_string();
    a.port = "80".to_string();
    let plan = plan_scan(&a).unwrap();
    assert_eq!(plan.technique, ScanTechnique::Syn);
    assert_eq!(
        plan.call,
        ScanCall::TcpSingle {
            kind: TcpKind::Syn,
            dst_ipv4: Ipv4 { a: 10, b: 0, c: 0, d: 1 },
            dst_port: 80,
        }
    );
}

#[test]
fn plan_idle_without_zombie_fails() {
    let mut a = base_args();
    a.host = "10.0.0.1".to_string();
    a.port = "80".to_string();
    a.idle = true;
    assert!(matches!(plan_scan(&a), Err(ResolveError::IdleScanValue(_))));

    let mut a = base_args();
    a.subnet = "10.0.0.0/24".to_string();
    a.port = "80".to_string();
    a.idle = true;
    a.zombie_host = "10.0.0.9".to_string();
    assert!(matches!(plan_scan(&a), Err(ResolveError::IdleScanValue(_))));
}

#[test]
fn plan_idle_with_zombie_carries_it() {
    let mut a = base_args();
    a.host = "10.0.0.1".to_string();
    a.port = "80".to_string();
    a.idle = true;
    a.zombie_host = "10.0.0.9".to_string();
    a.zombie_port = 6000;
    let plan = plan_scan(&a).unwrap();
    assert_eq!(
        plan.call,
        ScanCall::IdleSingle {
            dst_ipv4: Ipv4 { a: 10, b: 0, c: 0, d: 1 },
            dst_port: 80,
            zombie_ipv4: Ipv4 { a: 10, b: 0, c: 0, d: 9 },
            zombie_port: 6000,
        }
    );
}

#[test]
fn plan_arp_needs_subnet() {
    let mut a = base_args();
    a.host = "10.0.0.1".to_string();
    a.port = "80".to_string();
    a.arp = true;
    assert!(matches!(plan_scan(&a), Err(ResolveError::MissingTarget)));

    let mut a = base_args();
    a.subnet = "10.0.0.0/24".to_string();
    a.port = "80-90".to_string();
    a.arp = true;
    let plan = plan_scan(&a).unwrap();
    assert_eq!(
        plan.call,
        ScanCall::Arp { subnet: CidrV4 { addr: Ipv4 { a: 10, b: 0, c: 0, d: 0 }, prefix: 24 } }
    );
}

#[test]
fn plan_arp_in_subnet_mode_falls_back_to_syn() {
    let mut a = base_args();
    a.subnet = "10.0.0.0/24".to_string();
    a.port = "80".to_string();
    a.arp = true;
    let plan = plan_scan(&a).unwrap();
    assert!(matches!(plan.call, ScanCall::TcpSubnet { kind: TcpKind::Syn, .. }));
}

#[test]
fn plan_ip_technique_is_noop() {
    let mut a = base_args();
    a.host = "10.0.0.1".to_string();
    a.port = "80".to_string();
    a.ip = true;
    let plan = plan_scan(&a).unwrap();
    assert_eq!(plan.call, ScanCall::NoOp);
}

#[test]
fn plan_range_without_host_fails() {
    let mut a = base_args();
    a.port = "80-90".to_string();
    assert!(matches!(plan_scan(&a), Err(ResolveError::MissingTarget)));
}

#[test]
fn plan_udp_subnet() {
    let mut a = base_args();
    a.subnet = "10.0.0.0/24".to_string();
    a.port = "53".to_string();
    a.udp = true;
    let plan = plan_scan(&a).unwrap();
    assert_eq!(
        plan.call,
        ScanCall::UdpSubnet {
            subnet: CidrV4 { addr: Ipv4 { a: 10, b: 0, c: 0, d: 0 }, prefix: 24 },
            start_port: 53,
            end_port: 53,
        }
    );
}

#[test]
fn derived_mode_matches_resolution() {
    let cases: Vec<(&str, &str, &str)> = vec![
        ("10.0.0.1", "null", "80"),
        ("10.0.0.1", "null", "80-90"),
        ("null", "10.0.0.0/24", "80"),
        ("null", "10.0.0.0/24", "80-90"),
        ("10.0.0.1", "10.0.0.0/24", "443"),
    ];
    for (host, subnet, port) in cases {
        let mut a = base_args();
        a.host = host.to_string();
        a.subnet = subnet.to_string();
        a.port = port.to_string();
        let p = resolve_scan(&a).unwrap();
        assert_eq!(derive_scan_mode(&p), p.mode);
    }
}

#[test]
fn new_empty_is_all_unset() {
    let p = Parameters::new_empty();
    assert_eq!(p.mode, ScanMode::Unknown);
    assert!(p.src_ipv4.is_none());
    assert!(p.dst_ipv4.is_none());
    assert!(p.dst_port.is_none());
    assert!(p.subnet.is_none());
    assert!(p.interface.is_none());
}
