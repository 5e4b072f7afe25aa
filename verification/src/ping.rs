use vstd::prelude::*;
use vstd::utf8::encode_utf8;
use crate::{Args, ArgsV, ResolveError, ErrV, GetTargetPortFailed, SplitPortError, str_field_bytes};
use crate::bytes::is_null_str;
use crate::bytes::is_null_sentinel;
use crate::net::{Ipv4, CidrV4, is_ipv4, ipv4_of, is_cidr, cidr_of, parse_ipv4, parse_cidr};
use crate::ports::{PortSpec, spec_port_spec, resolve_port_spec};

verus! {

/// The operating scope that one ping invocation resolves to.
#[derive(Clone, Copy, Debug, PartialEq, Eq, Structural)]
pub enum PingMode {
    Host,
    Subnet,
    Unknown,
}

/// The typed parameter bundle a ping resolves to.
#[derive(Debug, Clone)]
pub struct Parameters {
    pub src_ipv4: Option<Ipv4>,
    pub src_port: Option<u16>,
    pub dst_ipv4: Option<Ipv4>,
    pub dst_port: Option<u16>,
    pub start_port: Option<u16>,
    pub end_port: Option<u16>,
    pub subnet: Option<CidrV4>,
    pub interface: Option<String>,
    pub mode: PingMode,
}

/// The mathematical view of `Parameters`: the interface as its bytes.
pub struct ParametersV {
    pub src_ipv4: Option<Ipv4>,
    pub src_port: Option<u16>,
    pub dst_ipv4: Option<Ipv4>,
    pub dst_port: Option<u16>,
    pub start_port: Option<u16>,
    pub end_port: Option<u16>,
    pub subnet: Option<CidrV4>,
    pub interface: Option<Seq<u8>>,
    pub mode: PingMode,
}

impl View for Parameters {
    type V = ParametersV;

    open spec fn view(&self) -> ParametersV {
        ParametersV {
            src_ipv4: self.src_ipv4,
            src_port: self.src_port,
            dst_ipv4: self.dst_ipv4,
            dst_port: self.dst_port,
            start_port: self.start_port,
            end_port: self.end_port,
            subnet: self.subnet,
            interface: match self.interface {
                Some(s) => Some(encode_utf8(s@)),
                None => None,
            },
            mode: self.mode,
        }
    }
}

/// The bundle with every field unset and the mode still unknown.
pub open spec fn spec_empty_params() -> ParametersV {
    ParametersV {
        src_ipv4: None,
        src_port: None,
        dst_ipv4: None,
        dst_port: None,
        start_port: None,
        end_port: None,
        subnet: None,
        interface: None,
        mode: PingMode::Unknown,
    }
}

impl Parameters {
    pub fn new_empty() -> (r: Parameters)
        ensures
            r@ == spec_empty_params(),
    {
        Parameters {
            src_ipv4: None,
            src_port: None,
            dst_ipv4: None,
            dst_port: None,
            start_port: None,
            end_port: None,
            subnet: None,
            interface: None,
            mode: PingMode::Unknown,
        }
    }
}

/// The fields every successful ping resolution sets the same way,
/// before the port spec is taken into account.
pub open spec fn spec_base_params(a: ArgsV) -> ParametersV {
    ParametersV {
        src_ipv4: if !is_null_str(a.source_host) {
            Some(ipv4_of(a.source_host))
        } else {
            None
        },
        src_port: if a.source_port != 0 {
            Some(a.source_port)
        } else {
            None
        },
        dst_ipv4: if !is_null_str(a.host) {
            Some(ipv4_of(a.host))
        } else {
            None
        },
        dst_port: None,
        start_port: None,
        end_port: None,
        subnet: if !is_null_str(a.subnet) {
            Some(cidr_of(a.subnet))
        } else {
            None
        },
        interface: if !is_null_str(a.interface) {
            Some(a.interface)
        } else {
            None
        },
        mode: if !is_null_str(a.subnet) {
            PingMode::Subnet
        } else {
            PingMode::Unknown
        },
    }
}

/// How one raw invocation resolves for a ping, or why it is rejected.
/// Fields are read in the order source host, target host, subnet, target
/// port. A missing port is fatal only when `require_port` holds; without
/// it the ports stay unset and a supplied host or subnet still fixes the
/// mode (ping-sweep-without-port semantics).
pub open spec fn spec_resolve_ping(a: ArgsV, require_port: bool) -> Result<ParametersV, ErrV> {
    if !is_null_str(a.source_host) && !is_ipv4(a.source_host) {
        Err(ErrV::AddressParse)
    } else if !is_null_str(a.host) && !is_ipv4(a.host) {
        Err(ErrV::AddressParse)
    } else if !is_null_str(a.subnet) && !is_cidr(a.subnet) {
        Err(ErrV::SubnetParse)
    } else {
        let base = spec_base_params(a);
        match spec_port_spec(a.port) {
            PortSpec::Missing => {
                if require_port {
                    Err(ErrV::TargetPortMissing)
                } else if base.mode is Subnet {
                    Ok(base)
                } else if base.dst_ipv4 is Some {
                    Ok(ParametersV { mode: PingMode::Host, ..base })
                } else {
                    Ok(base)
                }
            },
            PortSpec::MalformedSplit => Err(ErrV::PortSplit(a.port)),
            PortSpec::MalformedNumber => Err(ErrV::PortParse),
            PortSpec::Single(p) => {
                if base.mode is Subnet {
                    Ok(
                        ParametersV {
                            dst_port: Some(p),
                            start_port: Some(p),
                            end_port: Some(p),
                            ..base
                        },
                    )
                } else {
                    Ok(ParametersV { dst_port: Some(p), mode: PingMode::Host, ..base })
                }
            },
            PortSpec::Range(s, e) => {
                Ok(
                    ParametersV {
                        start_port: Some(s),
                        end_port: Some(e),
                        mode: PingMode::Host,
                        ..base
                    },
                )
            },
        }
    }
}

/// Resolve raw input into the ping parameter bundle, inferring the mode.
pub fn resolve_ping(args: &Args, require_port: bool) -> (r: Result<Parameters, ResolveError>)
    ensures
        r is Ok <==> spec_resolve_ping(args@, require_port) is Ok,
        r matches Ok(p) ==> p@ == spec_resolve_ping(args@, require_port)->Ok_0,
        r matches Err(e) ==> e@ == spec_resolve_ping(args@, require_port)->Err_0,
        r matches Ok(p) ==> (p.subnet matches Some(c) ==> c.wf()),
{
    let mut parameters = Parameters::new_empty();

    let source_host_bytes = str_field_bytes(&args.source_host);
    if !is_null_sentinel(source_host_bytes) {
        match parse_ipv4(source_host_bytes) {
            Some(v) => {
                parameters.src_ipv4 = Some(v);
            },
            None => {
                return Err(ResolveError::AddressParse);
            },
        }
    }
    if args.source_port != 0 {
        parameters.src_port = Some(args.source_port);
    }

    let host_bytes = str_field_bytes(&args.host);
    if !is_null_sentinel(host_bytes) {
        match parse_ipv4(host_bytes) {
            Some(v) => {
                parameters.dst_ipv4 = Some(v);
            },
            None => {
                return Err(ResolveError::AddressParse);
            },
        }
    }

    let subnet_bytes = str_field_bytes(&args.subnet);
    if !is_null_sentinel(subnet_bytes) {
        match parse_cidr(subnet_bytes) {
            Some(v) => {
                parameters.subnet = Some(v);
                parameters.mode = PingMode::Subnet;
            },
            None => {
                return Err(ResolveError::SubnetParse);
            },
        }
    }

    let port_bytes = str_field_bytes(&args.port);
    match resolve_port_spec(port_bytes) {
        PortSpec::Missing => {
            if require_port {
                return Err(ResolveError::TargetPortMissing(GetTargetPortFailed::new()));
            }
            if parameters.mode != PingMode::Subnet && parameters.dst_ipv4.is_some() {
                parameters.mode = PingMode::Host;
            }
        },
        PortSpec::MalformedSplit => {
            return Err(ResolveError::PortSplit(SplitPortError::new(args.port.clone())));
        },
        PortSpec::MalformedNumber => {
            return Err(ResolveError::PortParse);
        },
        PortSpec::Single(p) => {
            parameters.dst_port = Some(p);
            if parameters.mode == PingMode::Subnet {
                parameters.start_port = Some(p);
                parameters.end_port = Some(p);
            } else {
                parameters.mode = PingMode::Host;
            }
        },
        PortSpec::Range(s, e) => {
            parameters.start_port = Some(s);
            parameters.end_port = Some(e);
            parameters.mode = PingMode::Host;
        },
    }

    let interface_bytes = str_field_bytes(&args.interface);
    if !is_null_sentinel(interface_bytes) {
        parameters.interface = Some(args.interface.clone());
    }

    Ok(parameters)
}

/// Every ping technique a flag can select.
#[derive(Clone, Copy, Debug, PartialEq, Eq, Structural)]
pub enum PingTechnique {
    Syn,
    Ack,
    Udp,
    Icmp,
}

/// The first set flag wins, in the fixed priority order syn, ack, udp,
/// icmp; with no flag set the default is a TCP SYN ping.
pub open spec fn spec_ping_technique(a: ArgsV) -> PingTechnique {
    if a.syn {
        PingTechnique::Syn
    } else if a.ack {
        PingTechnique::Ack
    } else if a.udp {
        PingTechnique::Udp
    } else if a.icmp {
        PingTechnique::Icmp
    } else {
        PingTechnique::Syn
    }
}

pub fn select_ping_technique(args: &Args) -> (t: PingTechnique)
    ensures
        t == spec_ping_technique(args@),
{
    if args.syn {
        PingTechnique::Syn
    } else if args.ack {
        PingTechnique::Ack
    } else if args.udp {
        PingTechnique::Udp
    } else if args.icmp {
        PingTechnique::Icmp
    } else {
        PingTechnique::Syn
    }
}

/// The single probing call one ping invocation makes. Every ping primitive
/// takes the destination port as an optional value.
#[derive(Clone, Copy, Debug, PartialEq, Eq, Structural)]
pub enum PingCall {
    Host { technique: PingTechnique, dst_ipv4: Ipv4, dst_port: Option<u16> },
    Subnet { technique: PingTechnique, dst_port: Option<u16>, subnet: CidrV4 },
}

/// Which call the resolved bundle and the selected technique dispatch to,
/// or why none can be made.
pub open spec fn spec_ping_call(p: ParametersV, t: PingTechnique) -> Result<PingCall, ErrV> {
    match p.mode {
        PingMode::Unknown => Err(ErrV::ModeUnresolved),
        PingMode::Host => match p.dst_ipv4 {
            Some(di) => Ok(PingCall::Host { technique: t, dst_ipv4: di, dst_port: p.dst_port }),
            None => Err(ErrV::MissingTarget),
        },
        PingMode::Subnet => match p.subnet {
            Some(sn) => Ok(PingCall::Subnet { technique: t, dst_port: p.dst_port, subnet: sn }),
            None => Err(ErrV::MissingTarget),
        },
    }
}

/// A fully planned ping: the resolved bundle, the selected technique, and
/// the one call to make.
#[derive(Debug, Clone)]
pub struct PingPlan {
    pub params: Parameters,
    pub technique: PingTechnique,
    pub call: PingCall,
}

/// The mathematical view of `PingPlan`.
pub struct PingPlanV {
    pub params: ParametersV,
    pub technique: PingTechnique,
    pub call: PingCall,
}

impl View for PingPlan {
    type V = PingPlanV;

    open spec fn view(&self) -> PingPlanV {
        PingPlanV { params: self.params@, technique: self.technique, call: self.call }
    }
}

/// Resolution, selection and dispatch for one ping invocation.
pub open spec fn spec_plan_ping(a: ArgsV, require_port: bool) -> Result<PingPlanV, ErrV> {
    match spec_resolve_ping(a, require_port) {
        Err(e) => Err(e),
        Ok(p) => match spec_ping_call(p, spec_ping_technique(a)) {
            Err(e) => Err(e),
            Ok(c) => Ok(PingPlanV { params: p, technique: spec_ping_technique(a), call: c }),
        },
    }
}

/// Resolve the raw input and choose the single probing call a ping makes,
/// or report why no call can be made. No probe is performed here.
pub fn plan_ping(args: &Args, require_port: bool) -> (r: Result<PingPlan, ResolveError>)
    ensures
        r is Ok <==> spec_plan_ping(args@, require_port) is Ok,
        r matches Ok(p) ==> p@ == spec_plan_ping(args@, require_port)->Ok_0,
        r matches Err(e) ==> e@ == spec_plan_ping(args@, require_port)->Err_0,
{
    let parameters = match resolve_ping(args, require_port) {
        Ok(p) => p,
        Err(e) => {
            return Err(e);
        },
    };
    let technique = select_ping_technique(args);
    let call: PingCall = match parameters.mode {
        PingMode::Unknown => {
            return Err(ResolveError::ModeUnresolved(crate::AutoInferScanTypeError::new()));
        },
        PingMode::Host => match parameters.dst_ipv4 {
            Some(di) => PingCall::Host {
                technique,
                dst_ipv4: di,
                dst_port: parameters.dst_port,
            },
            None => {
                return Err(ResolveError::MissingTarget);
            },
        },
        PingMode::Subnet => match parameters.subnet {
            Some(sn) => PingCall::Subnet {
                technique,
                dst_port: parameters.dst_port,
                subnet: sn,
            },
            None => {
                return Err(ResolveError::MissingTarget);
            },
        },
    };
    Ok(PingPlan { params: parameters, technique, call })
}

/// The mode that the resolved fields alone imply.
pub open spec fn spec_ping_mode_of(p: ParametersV) -> PingMode {
    if p.subnet is Some {
        if p.dst_port is None && p.start_port is Some {
            PingMode::Host
        } else {
            PingMode::Subnet
        }
    } else if p.dst_port is Some || p.start_port is Some || p.dst_ipv4 is Some {
        PingMode::Host
    } else {
        PingMode::Unknown
    }
}

/// Re-derive the mode from the resolved bundle alone.
pub fn derive_ping_mode(p: &Parameters) -> (m: PingMode)
    ensures
        m == spec_ping_mode_of(p@),
{
    if p.subnet.is_some() {
        if p.dst_port.is_none() && p.start_port.is_some() {
            PingMode::Host
        } else {
            PingMode::Subnet
        }
    } else if p.dst_port.is_some() || p.start_port.is_some() || p.dst_ipv4.is_some() {
        PingMode::Host
    } else {
        PingMode::Unknown
    }
}

/// Resolution never leaves the mode out of step with the fields: deriving
/// the mode from the resolved bundle alone gives the inferred mode back.
pub proof fn lemma_ping_mode_round_trip(a: ArgsV, require_port: bool)
    requires
        spec_resolve_ping(a, require_port) is Ok,
    ensures
        spec_ping_mode_of(spec_resolve_ping(a, require_port)->Ok_0) == spec_resolve_ping(
            a,
            require_port,
        )->Ok_0.mode,
{
}

/// A single in-range port string always resolves, sets that destination
/// port, and gives the host mode; with a subnet also supplied the mode
/// stays subnet and the range collapses to that one port, rather than
/// becoming a host ping.
pub proof fn lemma_ping_single_port(a: ArgsV, require_port: bool)
    requires
        spec_port_spec(a.port) matches PortSpec::Single(_),
        is_null_str(a.source_host) || is_ipv4(a.source_host),
        is_null_str(a.host) || is_ipv4(a.host),
        is_null_str(a.subnet) || is_cidr(a.subnet),
    ensures
        spec_resolve_ping(a, require_port) is Ok,
        spec_resolve_ping(a, require_port)->Ok_0.dst_port == Some(
            spec_port_spec(a.port)->Single_0,
        ),
        is_null_str(a.subnet) ==> spec_resolve_ping(a, require_port)->Ok_0.mode
            == PingMode::Host,
        !is_null_str(a.subnet) ==> spec_resolve_ping(a, require_port)->Ok_0.mode
            == PingMode::Subnet,
        !is_null_str(a.subnet) ==> spec_resolve_ping(a, require_port)->Ok_0.start_port == Some(
            spec_port_spec(a.port)->Single_0,
        ),
        !is_null_str(a.subnet) ==> spec_resolve_ping(a, require_port)->Ok_0.end_port == Some(
            spec_port_spec(a.port)->Single_0,
        ),
{
}

/// With neither host nor subnet nor port, and the port not required, a
/// ping cannot infer a mode and planning fails before any primitive is
/// selected.
pub proof fn lemma_ping_nothing_unresolved(a: ArgsV)
    requires
        is_null_str(a.host),
        is_null_str(a.subnet),
        spec_port_spec(a.port) is Missing,
        is_null_str(a.source_host) || is_ipv4(a.source_host),
    ensures
        spec_plan_ping(a, false) == Err::<PingPlanV, ErrV>(ErrV::ModeUnresolved),
{
}

/// The syn flag outranks every other ping technique flag.
pub proof fn lemma_ping_syn_first(a: ArgsV)
    requires
        a.syn,
    ensures
        spec_ping_technique(a) == PingTechnique::Syn,
{
}

} // verus!
