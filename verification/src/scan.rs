use vstd::prelude::*;
use vstd::utf8::encode_utf8;
use crate::{Args, ArgsV, ResolveError, ErrV, GetTargetPortFailed, SplitPortError, str_field_bytes};
use crate::bytes::{is_null_str, is_null_sentinel, is_dec_u16, dec_u16_val, split_on, null_bytes,
    strip_plus, lemma_dec_u16_no_dash, lemma_split_on_concat, lemma_split_on_no_sep};
use crate::net::{Ipv4, CidrV4, is_ipv4, ipv4_of, is_cidr, cidr_of, parse_ipv4, parse_cidr};
use crate::ports::{PortSpec, spec_port_spec, resolve_port_spec};

verus! {

/// The operating scope that one scan invocation resolves to.
#[derive(Clone, Copy, Debug, PartialEq, Eq, Structural)]
pub enum ScanMode {
    SinglePort,
    RangePort,
    Subnet,
    Unknown,
}

/// The typed parameter bundle a scan resolves to. Fields that the selected
/// mode does not use stay unset; the mode says which fields are
/// authoritative.
#[derive(Debug, Clone)]
pub struct Parameters {
    pub src_ipv4: Option<Ipv4>,
    pub src_port: Option<u16>,
    pub dst_ipv4: Option<Ipv4>,
    pub dst_port: Option<u16>,
    pub zombie_ipv4: Option<Ipv4>,
    pub zombie_port: Option<u16>,
    pub start_port: Option<u16>,
    pub end_port: Option<u16>,
    pub subnet: Option<CidrV4>,
    pub interface: Option<String>,
    pub mode: ScanMode,
}

/// The mathematical view of `Parameters`: the interface as its bytes.
pub struct ParametersV {
    pub src_ipv4: Option<Ipv4>,
    pub src_port: Option<u16>,
    pub dst_ipv4: Option<Ipv4>,
    pub dst_port: Option<u16>,
    pub zombie_ipv4: Option<Ipv4>,
    pub zombie_port: Option<u16>,
    pub start_port: Option<u16>,
    pub end_port: Option<u16>,
    pub subnet: Option<CidrV4>,
    pub interface: Option<Seq<u8>>,
    pub mode: ScanMode,
}

impl View for Parameters {
    type V = ParametersV;

    open spec fn view(&self) -> ParametersV {
        ParametersV {
            src_ipv4: self.src_ipv4,
            src_port: self.src_port,
            dst_ipv4: self.dst_ipv4,
            dst_port: self.dst_port,
            zombie_ipv4: self.zombie_ipv4,
            zombie_port: self.zombie_port,
            start_port: self.start_port,
            end_port: self.end_port,
            subnet: self.subnet,
            interface: match self.interface {
                Some(s) => Some(encode_utf8(s@)),
                None => None,
            },
            mode: self.mode,
        }
    }
}

/// The bundle with every field unset and the mode still unknown.
pub open spec fn spec_empty_params() -> ParametersV {
    ParametersV {
        src_ipv4: None,
        src_port: None,
        dst_ipv4: None,
        dst_port: None,
        zombie_ipv4: None,
        zombie_port: None,
        start_port: None,
        end_port: None,
        subnet: None,
        interface: None,
        mode: ScanMode::Unknown,
    }
}

impl Parameters {
    pub fn new_empty() -> (r: Parameters)
        ensures
            r@ == spec_empty_params(),
    {
        Parameters {
            src_ipv4: None,
            src_port: None,
            dst_ipv4: None,
            dst_port: None,
            zombie_ipv4: None,
            zombie_port: None,
            start_port: None,
            end_port: None,
            subnet: None,
            interface: None,
            mode: ScanMode::Unknown,
        }
    }
}

/// The fields every successful scan resolution sets the same way,
/// before the port spec is taken into account.
pub open spec fn spec_base_params(a: ArgsV) -> ParametersV {
    ParametersV {
        src_ipv4: if !is_null_str(a.source_host) {
            Some(ipv4_of(a.source_host))
        } else {
            None
        },
        src_port: if a.source_port != 0 {
            Some(a.source_port)
        } else {
            None
        },
        dst_ipv4: if !is_null_str(a.host) {
            Some(ipv4_of(a.host))
        } else {
            None
        },
        dst_port: None,
        zombie_ipv4: if !is_null_str(a.zombie_host) {
            Some(ipv4_of(a.zombie_host))
        } else {
            None
        },
        zombie_port: if a.zombie_port != 0 {
            Some(a.zombie_port)
        } else {
            None
        },
        start_port: None,
        end_port: None,
        subnet: if !is_null_str(a.subnet) {
            Some(cidr_of(a.subnet))
        } else {
            None
        },
        interface: if !is_null_str(a.interface) {
            Some(a.interface)
        } else {
            None
        },
        mode: if !is_null_str(a.subnet) {
            ScanMode::Subnet
        } else {
            ScanMode::Unknown
        },
    }
}

/// How one raw invocation resolves for a scan, or why it is rejected.
/// Fields are read in the order source host, zombie host, target host,
/// subnet, target port; the first malformed field decides the error.
pub open spec fn spec_resolve_scan(a: ArgsV) -> Result<ParametersV, ErrV> {
    if !is_null_str(a.source_host) && !is_ipv4(a.source_host) {
        Err(ErrV::AddressParse)
    } else if !is_null_str(a.zombie_host) && !is_ipv4(a.zombie_host) {
        Err(ErrV::AddressParse)
    } else if !is_null_str(a.host) && !is_ipv4(a.host) {
        Err(ErrV::AddressParse)
    } else if !is_null_str(a.subnet) && !is_cidr(a.subnet) {
        Err(ErrV::SubnetParse)
    } else {
        let base = spec_base_params(a);
        match spec_port_spec(a.port) {
            PortSpec::Missing => Err(ErrV::TargetPortMissing),
            PortSpec::MalformedSplit => Err(ErrV::PortSplit(a.port)),
            PortSpec::MalformedNumber => Err(ErrV::PortParse),
            PortSpec::Single(p) => {
                if base.mode is Subnet {
                    Ok(
                        ParametersV {
                            dst_port: Some(p),
                            start_port: Some(p),
                            end_port: Some(p),
                            ..base
                        },
                    )
                } else {
                    Ok(ParametersV { dst_port: Some(p), mode: ScanMode::SinglePort, ..base })
                }
            },
            PortSpec::Range(s, e) => {
                Ok(
                    ParametersV {
                        start_port: Some(s),
                        end_port: Some(e),
                        mode: ScanMode::RangePort,
                        ..base
                    },
                )
            },
        }
    }
}

/// Resolve raw input into the scan parameter bundle, inferring the mode.
pub fn resolve_scan(args: &Args) -> (r: Result<Parameters, ResolveError>)
    ensures
        r is Ok <==> spec_resolve_scan(args@) is Ok,
        r matches Ok(p) ==> p@ == spec_resolve_scan(args@)->Ok_0,
        r matches Err(e) ==> e@ == spec_resolve_scan(args@)->Err_0,
        r matches Ok(p) ==> (p.subnet matches Some(c) ==> c.wf()),
{
    let mut parameters = Parameters::new_empty();

    let source_host_bytes = str_field_bytes(&args.source_host);
    if !is_null_sentinel(source_host_bytes) {
        match parse_ipv4(source_host_bytes) {
            Some(v) => {
                parameters.src_ipv4 = Some(v);
            },
            None => {
                return Err(ResolveError::AddressParse);
            },
        }
    }
    if args.source_port != 0 {
        parameters.src_port = Some(args.source_port);
    }

    let zombie_host_bytes = str_field_bytes(&args.zombie_host);
    if !is_null_sentinel(zombie_host_bytes) {
        match parse_ipv4(zombie_host_bytes) {
            Some(v) => {
                parameters.zombie_ipv4 = Some(v);
            },
            None => {
                return Err(ResolveError::AddressParse);
            },
        }
    }
    if args.zombie_port != 0 {
        parameters.zombie_port = Some(args.zombie_port);
    }

    let host_bytes = str_field_bytes(&args.host);
    if !is_null_sentinel(host_bytes) {
        match parse_ipv4(host_bytes) {
            Some(v) => {
                parameters.dst_ipv4 = Some(v);
            },
            None => {
                return Err(ResolveError::AddressParse);
            },
        }
    }

    let subnet_bytes = str_field_bytes(&args.subnet);
    if !is_null_sentinel(subnet_bytes) {
        match parse_cidr(subnet_bytes) {
            Some(v) => {
                parameters.subnet = Some(v);
                parameters.mode = ScanMode::Subnet;
            },
            None => {
                return Err(ResolveError::SubnetParse);
            },
        }
    }

    let port_bytes = str_field_bytes(&args.port);
    match resolve_port_spec(port_bytes) {
        PortSpec::Missing => {
            return Err(ResolveError::TargetPortMissing(GetTargetPortFailed::new()));
        },
        PortSpec::MalformedSplit => {
            return Err(ResolveError::PortSplit(SplitPortError::new(args.port.clone())));
        },
        PortSpec::MalformedNumber => {
            return Err(ResolveError::PortParse);
        },
        PortSpec::Single(p) => {
            parameters.dst_port = Some(p);
            if parameters.mode == ScanMode::Subnet {
                parameters.start_port = Some(p);
                parameters.end_port = Some(p);
            } else {
                parameters.mode = ScanMode::SinglePort;
            }
        },
        PortSpec::Range(s, e) => {
            parameters.start_port = Some(s);
            parameters.end_port = Some(e);
            parameters.mode = ScanMode::RangePort;
        },
    }

    let interface_bytes = str_field_bytes(&args.interface);
    if !is_null_sentinel(interface_bytes) {
        parameters.interface = Some(args.interface.clone());
    }

    Ok(parameters)
}

/// Every scan technique a flag can select.
#[derive(Clone, Copy, Debug, PartialEq, Eq, Structural)]
pub enum ScanTechnique {
    Syn,
    Ack,
    Connect,
    Fin,
    Null,
    Xmas,
    Window,
    Maimon,
    Idle,
    Udp,
    Ip,
    Arp,
}

/// The first set flag wins, in the fixed priority order syn, ack, connect,
/// fin, null, xmas, window, maimon, idle, udp, ip, arp; with no flag set
/// the default is a TCP SYN scan.
pub open spec fn spec_scan_technique(a: ArgsV) -> ScanTechnique {
    if a.syn {
        ScanTechnique::Syn
    } else if a.ack {
        ScanTechnique::Ack
    } else if a.connect {
        ScanTechnique::Connect
    } else if a.fin {
        ScanTechnique::Fin
    } else if a.null {
        ScanTechnique::Null
    } else if a.xmas {
        ScanTechnique::Xmas
    } else if a.window {
        ScanTechnique::Window
    } else if a.maimon {
        ScanTechnique::Maimon
    } else if a.idle {
        ScanTechnique::Idle
    } else if a.udp {
        ScanTechnique::Udp
    } else if a.ip {
        ScanTechnique::Ip
    } else if a.arp {
        ScanTechnique::Arp
    } else {
        ScanTechnique::Syn
    }
}

pub fn select_scan_technique(args: &Args) -> (t: ScanTechnique)
    ensures
        t == spec_scan_technique(args@),
{
    if args.syn {
        ScanTechnique::Syn
    } else if args.ack {
        ScanTechnique::Ack
    } else if args.connect {
        ScanTechnique::Connect
    } else if args.fin {
        ScanTechnique::Fin
    } else if args.null {
        ScanTechnique::Null
    } else if args.xmas {
        ScanTechnique::Xmas
    } else if args.window {
        ScanTechnique::Window
    } else if args.maimon {
        ScanTechnique::Maimon
    } else if args.idle {
        ScanTechnique::Idle
    } else if args.udp {
        ScanTechnique::Udp
    } else if args.ip {
        ScanTechnique::Ip
    } else if args.arp {
        ScanTechnique::Arp
    } else {
        ScanTechnique::Syn
    }
}

/// The TCP scan variants that share the uniform calling convention.
#[derive(Clone, Copy, Debug, PartialEq, Eq, Structural)]
pub enum TcpKind {
    Syn,
    Ack,
    Connect,
    Fin,
    Null,
    Xmas,
    Window,
    Maimon,
}

/// The TCP variant a technique stands for; anything that is not a TCP
/// technique falls back to the SYN default.
pub open spec fn spec_tcp_kind(t: ScanTechnique) -> TcpKind {
    match t {
        ScanTechnique::Syn => TcpKind::Syn,
        ScanTechnique::Ack => TcpKind::Ack,
        ScanTechnique::Connect => TcpKind::Connect,
        ScanTechnique::Fin => TcpKind::Fin,
        ScanTechnique::Null => TcpKind::Null,
        ScanTechnique::Xmas => TcpKind::Xmas,
        ScanTechnique::Window => TcpKind::Window,
        ScanTechnique::Maimon => TcpKind::Maimon,
        _ => TcpKind::Syn,
    }
}

fn tcp_kind_of(t: ScanTechnique) -> (k: TcpKind)
    ensures
        k == spec_tcp_kind(t),
{
    match t {
        ScanTechnique::Syn => TcpKind::Syn,
        ScanTechnique::Ack => TcpKind::Ack,
        ScanTechnique::Connect => TcpKind::Connect,
        ScanTechnique::Fin => TcpKind::Fin,
        ScanTechnique::Null => TcpKind::Null,
        ScanTechnique::Xmas => TcpKind::Xmas,
        ScanTechnique::Window => TcpKind::Window,
        ScanTechnique::Maimon => TcpKind::Maimon,
        _ => TcpKind::Syn,
    }
}

/// The single probing call one scan invocation makes. Every variant holds
/// exactly the values the probing engine needs beyond the shared source,
/// interface and tuning fields of the bundle.
#[derive(Clone, Copy, Debug, PartialEq, Eq, Structural)]
pub enum ScanCall {
    /// The IP-protocol scan is accepted but sends no probe; the invocation
    /// succeeds without any network work, as the tool has always done.
    NoOp,
    TcpSingle { kind: TcpKind, dst_ipv4: Ipv4, dst_port: u16 },
    TcpRange { kind: TcpKind, dst_ipv4: Ipv4, start_port: u16, end_port: u16 },
    TcpSubnet { kind: TcpKind, subnet: CidrV4, start_port: u16, end_port: u16 },
    IdleSingle { dst_ipv4: Ipv4, dst_port: u16, zombie_ipv4: Ipv4, zombie_port: u16 },
    IdleRange {
        dst_ipv4: Ipv4,
        start_port: u16,
        end_port: u16,
        zombie_ipv4: Ipv4,
        zombie_port: u16,
    },
    IdleSubnet {
        subnet: CidrV4,
        start_port: u16,
        end_port: u16,
        zombie_ipv4: Ipv4,
        zombie_port: u16,
    },
    UdpSingle { dst_ipv4: Ipv4, dst_port: u16 },
    UdpRange { dst_ipv4: Ipv4, start_port: u16, end_port: u16 },
    UdpSubnet { subnet: CidrV4, start_port: u16, end_port: u16 },
    Arp { subnet: CidrV4 },
}

/// Which call the resolved bundle and the selected technique dispatch to,
/// or why none can be made. The zombie check of the idle technique comes
/// before any look at the target fields; a target field that the call
/// needs but that resolution left unset is reported, never dereferenced.
pub open spec fn spec_scan_call(p: ParametersV, t: ScanTechnique) -> Result<ScanCall, ErrV> {
    match p.mode {
        ScanMode::Unknown => Err(ErrV::ModeUnresolved),
        ScanMode::SinglePort => match t {
            ScanTechnique::Idle => match (p.zombie_ipv4, p.zombie_port) {
                (Some(zi), Some(zp)) => match (p.dst_ipv4, p.dst_port) {
                    (Some(di), Some(dp)) => Ok(
                        ScanCall::IdleSingle {
                            dst_ipv4: di,
                            dst_port: dp,
                            zombie_ipv4: zi,
                            zombie_port: zp,
                        },
                    ),
                    _ => Err(ErrV::MissingTarget),
                },
                _ => Err(ErrV::IdleScanValue),
            },
            ScanTechnique::Udp => match (p.dst_ipv4, p.dst_port) {
                (Some(di), Some(dp)) => Ok(ScanCall::UdpSingle { dst_ipv4: di, dst_port: dp }),
                _ => Err(ErrV::MissingTarget),
            },
            ScanTechnique::Ip => Ok(ScanCall::NoOp),
            ScanTechnique::Arp => match p.subnet {
                Some(sn) => Ok(ScanCall::Arp { subnet: sn }),
                None => Err(ErrV::MissingTarget),
            },
            _ => match (p.dst_ipv4, p.dst_port) {
                (Some(di), Some(dp)) => Ok(
                    ScanCall::TcpSingle { kind: spec_tcp_kind(t), dst_ipv4: di, dst_port: dp },
                ),
                _ => Err(ErrV::MissingTarget),
            },
        },
        ScanMode::RangePort => match t {
            ScanTechnique::Idle => match (p.zombie_ipv4, p.zombie_port) {
                (Some(zi), Some(zp)) => match (p.dst_ipv4, p.start_port, p.end_port) {
                    (Some(di), Some(sp), Some(ep)) => Ok(
                        ScanCall::IdleRange {
                            dst_ipv4: di,
                            start_port: sp,
                            end_port: ep,
                            zombie_ipv4: zi,
                            zombie_port: zp,
                        },
                    ),
                    _ => Err(ErrV::MissingTarget),
                },
                _ => Err(ErrV::IdleScanValue),
            },
            ScanTechnique::Udp => match (p.dst_ipv4, p.start_port, p.end_port) {
                (Some(di), Some(sp), Some(ep)) => Ok(
                    ScanCall::UdpRange { dst_ipv4: di, start_port: sp, end_port: ep },
                ),
                _ => Err(ErrV::MissingTarget),
            },
            ScanTechnique::Ip => Ok(ScanCall::NoOp),
            ScanTechnique::Arp => match p.subnet {
                Some(sn) => Ok(ScanCall::Arp { subnet: sn }),
                None => Err(ErrV::MissingTarget),
            },
            _ => match (p.dst_ipv4, p.start_port, p.end_port) {
                (Some(di), Some(sp), Some(ep)) => Ok(
                    ScanCall::TcpRange {
                        kind: spec_tcp_kind(t),
                        dst_ipv4: di,
                        start_port: sp,
                        end_port: ep,
                    },
                ),
                _ => Err(ErrV::MissingTarget),
            },
        },
        ScanMode::Subnet => match t {
            ScanTechnique::Idle => match (p.zombie_ipv4, p.zombie_port) {
                (Some(zi), Some(zp)) => match (p.subnet, p.start_port, p.end_port) {
                    (Some(sn), Some(sp), Some(ep)) => Ok(
                        ScanCall::IdleSubnet {
                            subnet: sn,
                            start_port: sp,
                            end_port: ep,
                            zombie_ipv4: zi,
                            zombie_port: zp,
                        },
                    ),
                    _ => Err(ErrV::MissingTarget),
                },
                _ => Err(ErrV::IdleScanValue),
            },
            ScanTechnique::Udp => match (p.subnet, p.start_port, p.end_port) {
                (Some(sn), Some(sp), Some(ep)) => Ok(
                    ScanCall::UdpSubnet { subnet: sn, start_port: sp, end_port: ep },
                ),
                _ => Err(ErrV::MissingTarget),
            },
            ScanTechnique::Ip => Ok(ScanCall::NoOp),
            _ => match (p.subnet, p.start_port, p.end_port) {
                (Some(sn), Some(sp), Some(ep)) => Ok(
                    ScanCall::TcpSubnet {
                        kind: spec_tcp_kind(t),
                        subnet: sn,
                        start_port: sp,
                        end_port: ep,
                    },
                ),
                _ => Err(ErrV::MissingTarget),
            },
        },
    }
}

/// A fully planned scan: the resolved bundle, the selected technique, and
/// the one call to make.
#[derive(Debug, Clone)]
pub struct ScanPlan {
    pub params: Parameters,
    pub technique: ScanTechnique,
    pub call: ScanCall,
}

/// The mathematical view of `ScanPlan`.
pub struct ScanPlanV {
    pub params: ParametersV,
    pub technique: ScanTechnique,
    pub call: ScanCall,
}

impl View for ScanPlan {
    type V = ScanPlanV;

    open spec fn view(&self) -> ScanPlanV {
        ScanPlanV { params: self.params@, technique: self.technique, call: self.call }
    }
}

/// Resolution, selection and dispatch for one scan invocation.
pub open spec fn spec_plan_scan(a: ArgsV) -> Result<ScanPlanV, ErrV> {
    match spec_resolve_scan(a) {
        Err(e) => Err(e),
        Ok(p) => match spec_scan_call(p, spec_scan_technique(a)) {
            Err(e) => Err(e),
            Ok(c) => Ok(ScanPlanV { params: p, technique: spec_scan_technique(a), call: c }),
        },
    }
}

/// Resolve the raw input and choose the single probing call a scan makes,
/// or report why no call can be made. No probe is performed here.
pub fn plan_scan(args: &Args) -> (r: Result<ScanPlan, ResolveError>)
    ensures
        r is Ok <==> spec_plan_scan(args@) is Ok,
        r matches Ok(p) ==> p@ == spec_plan_scan(args@)->Ok_0,
        r matches Err(e) ==> e@ == spec_plan_scan(args@)->Err_0,
{
    let parameters = match resolve_scan(args) {
        Ok(p) => p,
        Err(e) => {
            return Err(e);
        },
    };
    let technique = select_scan_technique(args);
    let call: ScanCall = match parameters.mode {
        ScanMode::Unknown => {
            return Err(ResolveError::ModeUnresolved(crate::AutoInferScanTypeError::new()));
        },
        ScanMode::SinglePort => match technique {
            ScanTechnique::Idle => match (parameters.zombie_ipv4, parameters.zombie_port) {
                (Some(zi), Some(zp)) => match (parameters.dst_ipv4, parameters.dst_port) {
                    (Some(di), Some(dp)) => ScanCall::IdleSingle {
                        dst_ipv4: di,
                        dst_port: dp,
                        zombie_ipv4: zi,
                        zombie_port: zp,
                    },
                    _ => {
                        return Err(ResolveError::MissingTarget);
                    },
                },
                _ => {
                    return Err(ResolveError::IdleScanValue(crate::IdleScanValueError::new()));
                },
            },
            ScanTechnique::Udp => match (parameters.dst_ipv4, parameters.dst_port) {
                (Some(di), Some(dp)) => ScanCall::UdpSingle { dst_ipv4: di, dst_port: dp },
                _ => {
                    return Err(ResolveError::MissingTarget);
                },
            },
            ScanTechnique::Ip => ScanCall::NoOp,
            ScanTechnique::Arp => match parameters.subnet {
                Some(sn) => ScanCall::Arp { subnet: sn },
                None => {
                    return Err(ResolveError::MissingTarget);
                },
            },
            _ => match (parameters.dst_ipv4, parameters.dst_port) {
                (Some(di), Some(dp)) => ScanCall::TcpSingle {
                    kind: tcp_kind_of(technique),
                    dst_ipv4: di,
                    dst_port: dp,
                },
                _ => {
                    return Err(ResolveError::MissingTarget);
                },
            },
        },
        ScanMode::RangePort => match technique {
            ScanTechnique::Idle => match (parameters.zombie_ipv4, parameters.zombie_port) {
                (Some(zi), Some(zp)) => match (
                    parameters.dst_ipv4,
                    parameters.start_port,
                    parameters.end_port,
                ) {
                    (Some(di), Some(sp), Some(ep)) => ScanCall::IdleRange {
                        dst_ipv4: di,
                        start_port: sp,
                        end_port: ep,
                        zombie_ipv4: zi,
                        zombie_port: zp,
                    },
                    _ => {
                        return Err(ResolveError::MissingTarget);
                    },
                },
                _ => {
                    return Err(ResolveError::IdleScanValue(crate::IdleScanValueError::new()));
                },
            },
            ScanTechnique::Udp => match (
                parameters.dst_ipv4,
                parameters.start_port,
                parameters.end_port,
            ) {
                (Some(di), Some(sp), Some(ep)) => ScanCall::UdpRange {
                    dst_ipv4: di,
                    start_port: sp,
                    end_port: ep,
                },
                _ => {
                    return Err(ResolveError::MissingTarget);
                },
            },
            ScanTechnique::Ip => ScanCall::NoOp,
            ScanTechnique::Arp => match parameters.subnet {
                Some(sn) => ScanCall::Arp { subnet: sn },
                None => {
                    return Err(ResolveError::MissingTarget);
                },
            },
            _ => match (parameters.dst_ipv4, parameters.start_port, parameters.end_port) {
                (Some(di), Some(sp), Some(ep)) => ScanCall::TcpRange {
                    kind: tcp_kind_of(technique),
                    dst_ipv4: di,
                    start_port: sp,
                    end_port: ep,
                },
                _ => {
                    return Err(ResolveError::MissingTarget);
                },
            },
        },
        ScanMode::Subnet => match technique {
            ScanTechnique::Idle => match (parameters.zombie_ipv4, parameters.zombie_port) {
                (Some(zi), Some(zp)) => match (
                    parameters.subnet,
                    parameters.start_port,
                    parameters.end_port,
                ) {
                    (Some(sn), Some(sp), Some(ep)) => ScanCall::IdleSubnet {
                        subnet: sn,
                        start_port: sp,
                        end_port: ep,
                        zombie_ipv4: zi,
                        zombie_port: zp,
                    },
                    _ => {
                        return Err(ResolveError::MissingTarget);
                    },
                },
                _ => {
                    return Err(ResolveError::IdleScanValue(crate::IdleScanValueError::new()));
                },
            },
            ScanTechnique::Udp => match (
                parameters.subnet,
                parameters.start_port,
                parameters.end_port,
            ) {
                (Some(sn), Some(sp), Some(ep)) => ScanCall::UdpSubnet {
                    subnet: sn,
                    start_port: sp,
                    end_port: ep,
                },
                _ => {
                    return Err(ResolveError::MissingTarget);
                },
            },
            ScanTechnique::Ip => ScanCall::NoOp,
            _ => match (parameters.subnet, parameters.start_port, parameters.end_port) {
                (Some(sn), Some(sp), Some(ep)) => ScanCall::TcpSubnet {
                    kind: tcp_kind_of(technique),
                    subnet: sn,
                    start_port: sp,
                    end_port: ep,
                },
                _ => {
                    return Err(ResolveError::MissingTarget);
                },
            },
        },
    };
    Ok(ScanPlan { params: parameters, technique, call })
}

/// The mode that the resolved fields alone imply.
pub open spec fn spec_scan_mode_of(p: ParametersV) -> ScanMode {
    if p.dst_port is Some && p.subnet is Some {
        ScanMode::Subnet
    } else if p.start_port is Some {
        ScanMode::RangePort
    } else if p.dst_port is Some {
        ScanMode::SinglePort
    } else {
        ScanMode::Unknown
    }
}

/// Re-derive the mode from the resolved bundle alone.
pub fn derive_scan_mode(p: &Parameters) -> (m: ScanMode)
    ensures
        m == spec_scan_mode_of(p@),
{
    if p.dst_port.is_some() && p.subnet.is_some() {
        ScanMode::Subnet
    } else if p.start_port.is_some() {
        ScanMode::RangePort
    } else if p.dst_port.is_some() {
        ScanMode::SinglePort
    } else {
        ScanMode::Unknown
    }
}

/// Resolution never leaves the mode out of step with the fields: deriving
/// the mode from the resolved bundle alone gives the inferred mode back.
pub proof fn lemma_scan_mode_round_trip(a: ArgsV)
    requires
        spec_resolve_scan(a) is Ok,
    ensures
        spec_scan_mode_of(spec_resolve_scan(a)->Ok_0) == spec_resolve_scan(a)->Ok_0.mode,
{
}

/// A single in-range port string always resolves, sets that destination
/// port, and gives the single-port mode, or the subnet mode when a subnet
/// was also supplied.
pub proof fn lemma_scan_single_port(a: ArgsV)
    requires
        spec_port_spec(a.port) matches PortSpec::Single(_),
        is_null_str(a.source_host) || is_ipv4(a.source_host),
        is_null_str(a.zombie_host) || is_ipv4(a.zombie_host),
        is_null_str(a.host) || is_ipv4(a.host),
        is_null_str(a.subnet) || is_cidr(a.subnet),
    ensures
        spec_resolve_scan(a) is Ok,
        spec_resolve_scan(a)->Ok_0.dst_port == Some(spec_port_spec(a.port)->Single_0),
        !is_null_str(a.subnet) ==> spec_resolve_scan(a)->Ok_0.mode == ScanMode::Subnet,
        is_null_str(a.subnet) ==> spec_resolve_scan(a)->Ok_0.mode == ScanMode::SinglePort,
{
}

/// Any port string "A-B" whose two bounds are 16-bit numbers always
/// resolves, with start port A, end port B and the range-port mode, and
/// never with an error.
pub proof fn lemma_scan_range_port(a: ArgsV, x: Seq<u8>, y: Seq<u8>)
    requires
        a.port == x + seq![45u8] + y,
        is_dec_u16(x),
        is_dec_u16(y),
        is_null_str(a.source_host) || is_ipv4(a.source_host),
        is_null_str(a.zombie_host) || is_ipv4(a.zombie_host),
        is_null_str(a.host) || is_ipv4(a.host),
        is_null_str(a.subnet) || is_cidr(a.subnet),
    ensures
        spec_resolve_scan(a) is Ok,
        spec_resolve_scan(a)->Ok_0.start_port == Some(dec_u16_val(x)),
        spec_resolve_scan(a)->Ok_0.end_port == Some(dec_u16_val(y)),
        spec_resolve_scan(a)->Ok_0.mode == ScanMode::RangePort,
{
    lemma_dec_u16_no_dash(x);
    lemma_dec_u16_no_dash(y);
    lemma_split_on_concat(x, y, 45);
    lemma_split_on_no_sep(y, 45);
    assert(split_on(a.port, 45) == seq![x] + seq![y]);
    assert((seq![x] + seq![y]).len() == 2);
    assert((seq![x] + seq![y])[0] == x);
    assert((seq![x] + seq![y])[1] == y);
    assert(strip_plus(x).len() > 0);
    assert(x.len() >= 1);
    assert(strip_plus(y).len() > 0);
    assert(y.len() >= 1);
    assert(a.port.len() >= 3);
    assert(!is_null_str(a.port)) by {
        if is_null_str(a.port) {
            assert(a.port[x.len() as int] == 45);
            assert(a.port.len() == 4);
            assert(1 <= x.len() <= 2);
            assert(null_bytes()[1] == 117);
            assert(null_bytes()[2] == 108);
        }
    }
    assert(spec_port_spec(a.port) == PortSpec::Range(dec_u16_val(x), dec_u16_val(y)));
}

/// The idle technique without both zombie fields always fails with the
/// idle-scan error, however completely the rest of the input resolved.
pub proof fn lemma_scan_idle_missing_zombie(a: ArgsV)
    requires
        spec_resolve_scan(a) is Ok,
        spec_scan_technique(a) == ScanTechnique::Idle,
        is_null_str(a.zombie_host) || a.zombie_port == 0,
    ensures
        spec_plan_scan(a) == Err::<ScanPlanV, ErrV>(ErrV::IdleScanValue),
{
}

/// The syn flag outranks every other scan technique flag.
pub proof fn lemma_scan_syn_first(a: ArgsV)
    requires
        a.syn,
    ensures
        spec_scan_technique(a) == ScanTechnique::Syn,
{
}

} // verus!

