use vstd::prelude::*;
use vstd::utf8::encode_utf8;
use crate::{Args, ArgsV, ResolveError, ErrV, GetTargetPortFailed, SplitPortError, str_field_bytes};
use crate::bytes::is_null_str;
use crate::bytes::is_null_sentinel;
use crate::net::{Ipv4, is_ipv4, ipv4_of, parse_ipv4};
use crate::ports::{PortSpec, spec_port_spec, resolve_port_spec};

verus! {

/// The operating scope that one flood invocation resolves to. Subnet
/// flooding is not supported, so a host is the only target.
#[derive(Clone, Copy, Debug, PartialEq, Eq, Structural)]
pub enum FloodMode {
    Host,
    Unknown,
}

/// The typed parameter bundle a flood resolves to.
#[derive(Debug, Clone)]
pub struct Parameters {
    pub src_ipv4: Option<Ipv4>,
    pub src_port: Option<u16>,
    pub dst_ipv4: Option<Ipv4>,
    pub dst_port: Option<u16>,
    pub start_port: Option<u16>,
    pub end_port: Option<u16>,
    pub interface: Option<String>,
    pub mode: FloodMode,
}

/// The mathematical view of `Parameters`: the interface as its bytes.
pub struct ParametersV {
    pub src_ipv4: Option<Ipv4>,
    pub src_port: Option<u16>,
    pub dst_ipv4: Option<Ipv4>,
    pub dst_port: Option<u16>,
    pub start_port: Option<u16>,
    pub end_port: Option<u16>,
    pub interface: Option<Seq<u8>>,
    pub mode: FloodMode,
}

impl View for Parameters {
    type V = ParametersV;

    open spec fn view(&self) -> ParametersV {
        ParametersV {
            src_ipv4: self.src_ipv4,
            src_port: self.src_port,
            dst_ipv4: self.dst_ipv4,
            dst_port: self.dst_port,
            start_port: self.start_port,
            end_port: self.end_port,
            interface: match self.interface {
                Some(s) => Some(encode_utf8(s@)),
                None => None,
            },
            mode: self.mode,
        }
    }
}

/// The bundle with every field unset and the mode still unknown.
pub open spec fn spec_empty_params() -> ParametersV {
    ParametersV {
        src_ipv4: None,
        src_port: None,
        dst_ipv4: None,
        dst_port: None,
        start_port: None,
        end_port: None,
        interface: None,
        mode: FloodMode::Unknown,
    }
}

impl Parameters {
    pub fn new_empty() -> (r: Parameters)
        ensures
            r@ == spec_empty_params(),
    {
        Parameters {
            src_ipv4: None,
            src_port: None,
            dst_ipv4: None,
            dst_port: None,
            start_port: None,
            end_port: None,
            interface: None,
            mode: FloodMode::Unknown,
        }
    }
}

/// The fields every successful flood resolution sets the same way,
/// before the port spec is taken into account.
pub open spec fn spec_base_params(a: ArgsV) -> ParametersV {
    ParametersV {
        src_ipv4: if !is_null_str(a.source_host) {
            Some(ipv4_of(a.source_host))
        } else {
            None
        },
        src_port: if a.source_port != 0 {
            Some(a.source_port)
        } else {
            None
        },
        dst_ipv4: if !is_null_str(a.host) {
            Some(ipv4_of(a.host))
        } else {
            None
        },
        dst_port: None,
        start_port: None,
        end_port: None,
        interface: if !is_null_str(a.interface) {
            Some(a.interface)
        } else {
            None
        },
        mode: FloodMode::Unknown,
    }
}

/// How one raw invocation resolves for a flood, or why it is rejected.
/// Fields are read in the order source host, target host, target port.
/// Any port that parses fixes the host mode; a single port also sets the
/// destination port.
pub open spec fn spec_resolve_flood(a: ArgsV) -> Result<ParametersV, ErrV> {
    if !is_null_str(a.source_host) && !is_ipv4(a.source_host) {
        Err(ErrV::AddressParse)
    } else if !is_null_str(a.host) && !is_ipv4(a.host) {
        Err(ErrV::AddressParse)
    } else {
        let base = spec_base_params(a);
        match spec_port_spec(a.port) {
            PortSpec::Missing => Err(ErrV::TargetPortMissing),
            PortSpec::MalformedSplit => Err(ErrV::PortSplit(a.port)),
            PortSpec::MalformedNumber => Err(ErrV::PortParse),
            PortSpec::Single(p) => Ok(
                ParametersV { dst_port: Some(p), mode: FloodMode::Host, ..base },
            ),
            PortSpec::Range(s, e) => {
                Ok(
                    ParametersV {
                        start_port: Some(s),
                        end_port: Some(e),
                        mode: FloodMode::Host,
                        ..base
                    },
                )
            },
        }
    }
}

/// Resolve raw input into the flood parameter bundle, inferring the mode.
pub fn resolve_flood(args: &Args) -> (r: Result<Parameters, ResolveError>)
    ensures
        r is Ok <==> spec_resolve_flood(args@) is Ok,
        r matches Ok(p) ==> p@ == spec_resolve_flood(args@)->Ok_0,
        r matches Err(e) ==> e@ == spec_resolve_flood(args@)->Err_0,
{
    let mut parameters = Parameters::new_empty();

    let source_host_bytes = str_field_bytes(&args.source_host);
    if !is_null_sentinel(source_host_bytes) {
        match parse_ipv4(source_host_bytes) {
            Some(v) => {
                parameters.src_ipv4 = Some(v);
            },
            None => {
                return Err(ResolveError::AddressParse);
            },
        }
    }
    if args.source_port != 0 {
        parameters.src_port = Some(args.source_port);
    }

    let host_bytes = str_field_bytes(&args.host);
    if !is_null_sentinel(host_bytes) {
        match parse_ipv4(host_bytes) {
            Some(v) => {
                parameters.dst_ipv4 = Some(v);
            },
            None => {
                return Err(ResolveError::AddressParse);
            },
        }
    }

    let port_bytes = str_field_bytes(&args.port);
    match resolve_port_spec(port_bytes) {
        PortSpec::Missing => {
            return Err(ResolveError::TargetPortMissing(GetTargetPortFailed::new()));
        },
        PortSpec::MalformedSplit => {
            return Err(ResolveError::PortSplit(SplitPortError::new(args.port.clone())));
        },
        PortSpec::MalformedNumber => {
            return Err(ResolveError::PortParse);
        },
        PortSpec::Single(p) => {
            parameters.dst_port = Some(p);
            parameters.mode = FloodMode::Host;
        },
        PortSpec::Range(s, e) => {
            parameters.start_port = Some(s);
            parameters.end_port = Some(e);
            parameters.mode = FloodMode::Host;
        },
    }

    let interface_bytes = str_field_bytes(&args.interface);
    if !is_null_sentinel(interface_bytes) {
        parameters.interface = Some(args.interface.clone());
    }

    Ok(parameters)
}

/// Every flood technique a flag can select.
#[derive(Clone, Copy, Debug, PartialEq, Eq, Structural)]
pub enum FloodTechnique {
    Syn,
    Ack,
    Icmp,
    Udp,
}

/// The first set flag wins, in the fixed priority order syn, ack, icmp,
/// udp; with no flag set the default is a TCP SYN flood.
pub open spec fn spec_flood_technique(a: ArgsV) -> FloodTechnique {
    if a.syn {
        FloodTechnique::Syn
    } else if a.ack {
        FloodTechnique::Ack
    } else if a.icmp {
        FloodTechnique::Icmp
    } else if a.udp {
        FloodTechnique::Udp
    } else {
        FloodTechnique::Syn
    }
}

pub fn select_flood_technique(args: &Args) -> (t: FloodTechnique)
    ensures
        t == spec_flood_technique(args@),
{
    if args.syn {
        FloodTechnique::Syn
    } else if args.ack {
        FloodTechnique::Ack
    } else if args.icmp {
        FloodTechnique::Icmp
    } else if args.udp {
        FloodTechnique::Udp
    } else {
        FloodTechnique::Syn
    }
}

/// The single flooding call one invocation makes. The ICMP flood has its
/// own shape without ports; the others share the uniform convention.
#[derive(Clone, Copy, Debug, PartialEq, Eq, Structural)]
pub enum FloodCall {
    Icmp { dst_ipv4: Ipv4 },
    Host { technique: FloodTechnique, dst_ipv4: Ipv4, dst_port: Option<u16> },
}

/// Which call the resolved bundle and the selected technique dispatch to,
/// or why none can be made.
pub open spec fn spec_flood_call(p: ParametersV, t: FloodTechnique) -> Result<FloodCall, ErrV> {
    match p.mode {
        FloodMode::Unknown => Err(ErrV::ModeUnresolved),
        FloodMode::Host => match p.dst_ipv4 {
            Some(di) => {
                if t is Icmp {
                    Ok(FloodCall::Icmp { dst_ipv4: di })
                } else {
                    Ok(FloodCall::Host { technique: t, dst_ipv4: di, dst_port: p.dst_port })
                }
            },
            None => Err(ErrV::MissingTarget),
        },
    }
}

/// A fully planned flood: the resolved bundle, the selected technique, and
/// the one call to make.
#[derive(Debug, Clone)]
pub struct FloodPlan {
    pub params: Parameters,
    pub technique: FloodTechnique,
    pub call: FloodCall,
}

/// The mathematical view of `FloodPlan`.
pub struct FloodPlanV {
    pub params: ParametersV,
    pub technique: FloodTechnique,
    pub call: FloodCall,
}

impl View for FloodPlan {
    type V = FloodPlanV;

    open spec fn view(&self) -> FloodPlanV {
        FloodPlanV { params: self.params@, technique: self.technique, call: self.call }
    }
}

/// Resolution, selection and dispatch for one flood invocation.
pub open spec fn spec_plan_flood(a: ArgsV) -> Result<FloodPlanV, ErrV> {
    match spec_resolve_flood(a) {
        Err(e) => Err(e),
        Ok(p) => match spec_flood_call(p, spec_flood_technique(a)) {
            Err(e) => Err(e),
            Ok(c) => Ok(FloodPlanV { params: p, technique: spec_flood_technique(a), call: c }),
        },
    }
}

/// Resolve the raw input and choose the single flooding call to make, or
/// report why no call can be made. No packet is sent here.
pub fn plan_flood(args: &Args) -> (r: Result<FloodPlan, ResolveError>)
    ensures
        r is Ok <==> spec_plan_flood(args@) is Ok,
        r matches Ok(p) ==> p@ == spec_plan_flood(args@)->Ok_0,
        r matches Err(e) ==> e@ == spec_plan_flood(args@)->Err_0,
{
    let parameters = match resolve_flood(args) {
        Ok(p) => p,
        Err(e) => {
            return Err(e);
        },
    };
    let technique = select_flood_technique(args);
    let call: FloodCall = match parameters.mode {
        FloodMode::Unknown => {
            return Err(ResolveError::ModeUnresolved(crate::AutoInferScanTypeError::new()));
        },
        FloodMode::Host => match parameters.dst_ipv4 {
            Some(di) => {
                if technique == FloodTechnique::Icmp {
                    FloodCall::Icmp { dst_ipv4: di }
                } else {
                    FloodCall::Host {
                        technique,
                        dst_ipv4: di,
                        dst_port: parameters.dst_port,
                    }
                }
            },
            None => {
                return Err(ResolveError::MissingTarget);
            },
        },
    };
    Ok(FloodPlan { params: parameters, technique, call })
}

/// The mode that the resolved fields alone imply.
pub open spec fn spec_flood_mode_of(p: ParametersV) -> FloodMode {
    if p.start_port is Some || p.dst_port is Some {
        FloodMode::Host
    } else {
        FloodMode::Unknown
    }
}

/// Re-derive the mode from the resolved bundle alone.
pub fn derive_flood_mode(p: &Parameters) -> (m: FloodMode)
    ensures
        m == spec_flood_mode_of(p@),
{
    if p.start_port.is_some() || p.dst_port.is_some() {
        FloodMode::Host
    } else {
        FloodMode::Unknown
    }
}

/// Resolution never leaves the mode out of step with the fields: deriving
/// the mode from the resolved bundle alone gives the inferred mode back.
pub proof fn lemma_flood_mode_round_trip(a: ArgsV)
    requires
        spec_resolve_flood(a) is Ok,
    ensures
        spec_flood_mode_of(spec_resolve_flood(a)->Ok_0) == spec_resolve_flood(a)->Ok_0.mode,
{
}

/// A host together with a single in-range port always resolves to the host
/// mode, sets that destination port, and plans a flood call against that
/// host carrying it.
pub proof fn lemma_flood_single_port_host(a: ArgsV)
    requires
        spec_port_spec(a.port) matches PortSpec::Single(_),
        is_null_str(a.source_host) || is_ipv4(a.source_host),
        !is_null_str(a.host),
        is_ipv4(a.host),
    ensures
        spec_resolve_flood(a) is Ok,
        spec_resolve_flood(a)->Ok_0.mode == FloodMode::Host,
        spec_resolve_flood(a)->Ok_0.dst_port == Some(spec_port_spec(a.port)->Single_0),
        spec_plan_flood(a) is Ok,
        spec_flood_technique(a) != FloodTechnique::Icmp ==> spec_plan_flood(a)->Ok_0.call == (
        FloodCall::Host {
            technique: spec_flood_technique(a),
            dst_ipv4: ipv4_of(a.host),
            dst_port: Some(spec_port_spec(a.port)->Single_0),
        }),
        spec_flood_technique(a) == FloodTechnique::Icmp ==> spec_plan_flood(a)->Ok_0.call == (
        FloodCall::Icmp { dst_ipv4: ipv4_of(a.host) }),
{
}

/// A single port without a host still resolves to the host mode, but
/// planning fails with the explicit missing-target error before any
/// primitive is selected.
pub proof fn lemma_flood_single_port_no_host(a: ArgsV)
    requires
        spec_port_spec(a.port) matches PortSpec::Single(_),
        is_null_str(a.source_host) || is_ipv4(a.source_host),
        is_null_str(a.host),
    ensures
        spec_plan_flood(a) == Err::<FloodPlanV, ErrV>(ErrV::MissingTarget),
{
}

/// With no target port at all, a flood fails during resolution, before any
/// primitive is selected.
pub proof fn lemma_flood_missing_port(a: ArgsV)
    requires
        spec_port_spec(a.port) is Missing,
        is_null_str(a.source_host) || is_ipv4(a.source_host),
        is_null_str(a.host) || is_ipv4(a.host),
    ensures
        spec_plan_flood(a) == Err::<FloodPlanV, ErrV>(ErrV::TargetPortMissing),
{
}

/// The syn flag outranks every other flood technique flag.
pub proof fn lemma_flood_syn_first(a: ArgsV)
    requires
        a.syn,
    ensures
        spec_flood_technique(a) == FloodTechnique::Syn,
{
}

} // verus!
