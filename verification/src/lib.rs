use vstd::prelude::*;
use vstd::string::StringExecFns;
use vstd::utf8::encode_utf8;

pub mod bytes;
pub mod net;
pub mod ports;
pub mod scan;
pub mod ping;
pub mod flood;

verus! {

/// Per-probe timeout handed to the probing engine, in milliseconds.
pub const DEFAULT_TIMEOUT_MS: u64 = 100;

/// Retry budget handed to the probing engine.
pub const DEFAULT_MAX_LOOP: usize = 64;

/// Thread-count hint for range and subnet operations; zero lets the
/// engine size itself to the target.
pub const AUTO_THREADS: usize = 0;

/// Cap on identical packets per flood.
pub const MAX_SAME_PACKET: usize = 1024;

/// Cap on total packets per flood.
pub const MAX_FLOOD_PACKET: usize = 1024;

/// Raw command-line input. String fields use the sentinel "null" and port
/// fields use 0 to stand for "not supplied".
#[derive(Debug, Clone)]
pub struct Args {
    /// Scan (port scanning)
    pub scan: bool,
    /// Ping (host discovery)
    pub ping: bool,
    /// Flood (flood attack)
    pub flood: bool,
    /// Target host
    pub host: String,
    /// Target subnet
    pub subnet: String,
    /// Target port (like 80 or 80-8000)
    pub port: String,
    /// Source host
    pub source_host: String,
    /// Source port
    pub source_port: u16,
    /// System interface (like ens33)
    pub interface: String,
    /// Zombie host (idle scan)
    pub zombie_host: String,
    /// Zombie port (idle scan)
    pub zombie_port: u16,
    /// Syn flag
    pub syn: bool,
    /// Ack flag
    pub ack: bool,
    /// Connect flag
    pub connect: bool,
    /// Fin flag
    pub fin: bool,
    /// Null flag
    pub null: bool,
    /// Xmas flag
    pub xmas: bool,
    /// Window flag
    pub window: bool,
    /// Maimon flag
    pub maimon: bool,
    /// Idle flag
    pub idle: bool,
    /// Udp flag
    pub udp: bool,
    /// Ip flag
    pub ip: bool,
    /// Icmp flag
    pub icmp: bool,
    /// Arp flag
    pub arp: bool,
}

/// The mathematical view of `Args`: each raw string as its bytes.
pub struct ArgsV {
    pub scan: bool,
    pub ping: bool,
    pub flood: bool,
    pub host: Seq<u8>,
    pub subnet: Seq<u8>,
    pub port: Seq<u8>,
    pub source_host: Seq<u8>,
    pub source_port: u16,
    pub interface: Seq<u8>,
    pub zombie_host: Seq<u8>,
    pub zombie_port: u16,
    pub syn: bool,
    pub ack: bool,
    pub connect: bool,
    pub fin: bool,
    pub null: bool,
    pub xmas: bool,
    pub window: bool,
    pub maimon: bool,
    pub idle: bool,
    pub udp: bool,
    pub ip: bool,
    pub icmp: bool,
    pub arp: bool,
}

impl View for Args {
    type V = ArgsV;

    open spec fn view(&self) -> ArgsV {
        ArgsV {
            scan: self.scan,
            ping: self.ping,
            flood: self.flood,
            host: encode_utf8(self.host@),
            subnet: encode_utf8(self.subnet@),
            port: encode_utf8(self.port@),
            source_host: encode_utf8(self.source_host@),
            source_port: self.source_port,
            interface: encode_utf8(self.interface@),
            zombie_host: encode_utf8(self.zombie_host@),
            zombie_port: self.zombie_port,
            syn: self.syn,
            ack: self.ack,
            connect: self.connect,
            fin: self.fin,
            null: self.null,
            xmas: self.xmas,
            window: self.window,
            maimon: self.maimon,
            idle: self.idle,
            udp: self.udp,
            ip: self.ip,
            icmp: self.icmp,
            arp: self.arp,
        }
    }
}

/// The bytes of one raw string field.
pub fn str_field_bytes(s: &String) -> (r: &[u8])
    ensures
        r@ == encode_utf8(s@),
{
    s.as_str().as_bytes()
}

/// The target port was required but not supplied.
#[derive(Debug, Clone)]
pub struct GetTargetPortFailed {}

impl GetTargetPortFailed {
    pub fn new() -> (r: GetTargetPortFailed) {
        GetTargetPortFailed {  }
    }

    /// The text shown for this error.
    pub fn message(&self) -> (r: String)
        ensures
            r@ == "please set target port"@,
    {
        "please set target port".to_owned()
    }
}

/// A range port string that did not split into exactly two parts.
#[derive(Debug, Clone)]
pub struct SplitPortError {
    portstr: String,
}

impl View for SplitPortError {
    type V = Seq<char>;

    closed spec fn view(&self) -> Seq<char> {
        self.portstr@
    }
}

impl SplitPortError {
    pub fn new(portstr: String) -> (r: SplitPortError)
        ensures
            r@ == portstr@,
    {
        SplitPortError { portstr }
    }

    /// The port string that failed to split, preserved verbatim.
    pub fn portstr(&self) -> (r: &String)
        ensures
            r@ == self@,
    {
        &self.portstr
    }

    /// The text shown for this error, with the port string verbatim.
    pub fn message(&self) -> (r: String)
        ensures
            r@ == "can not split range port "@ + self@,
    {
        "can not split range port ".to_owned().concat(self.portstr.as_str())
    }
}

/// No operating mode could be inferred from the supplied fields.
#[derive(Debug, Clone)]
pub struct AutoInferScanTypeError {}

impl AutoInferScanTypeError {
    pub fn new() -> (r: AutoInferScanTypeError) {
        AutoInferScanTypeError {  }
    }

    /// The text shown for this error.
    pub fn message(&self) -> (r: String)
        ensures
            r@ == "can not auto infer scan type, please set host, port or interface at least one"@,
    {
        "can not auto infer scan type, please set host, port or interface at least one".to_owned()
    }
}

/// The idle technique was selected without a zombie host and port.
#[derive(Debug, Clone)]
pub struct IdleScanValueError {}

impl IdleScanValueError {
    pub fn new() -> (r: IdleScanValueError) {
        IdleScanValueError {  }
    }

    /// The text shown for this error.
    pub fn message(&self) -> (r: String)
        ensures
            r@ == "can not find the zombie host or port"@,
    {
        "can not find the zombie host or port".to_owned()
    }
}

/// Why resolving or planning an invocation failed.
#[derive(Debug, Clone)]
pub enum ResolveError {
    /// A host field that is set but is not a dotted-quad IPv4 address.
    AddressParse,
    /// A port field that is set but is not a 16-bit number.
    PortParse,
    /// A subnet field that is set but is not an IPv4 CIDR block.
    SubnetParse,
    /// No target port was supplied where one is required.
    TargetPortMissing(GetTargetPortFailed),
    /// A range port string with more than one separator.
    PortSplit(SplitPortError),
    /// No operating mode could be inferred from the supplied fields.
    ModeUnresolved(AutoInferScanTypeError),
    /// The idle technique without a zombie host and port.
    IdleScanValue(IdleScanValueError),
    /// A field that the selected mode and technique need is unset.
    MissingTarget,
}

/// The mathematical view of `ResolveError`.
pub enum ErrV {
    AddressParse,
    PortParse,
    SubnetParse,
    TargetPortMissing,
    /// Carries the raw port string that failed to split.
    PortSplit(Seq<u8>),
    ModeUnresolved,
    IdleScanValue,
    MissingTarget,
}

impl View for ResolveError {
    type V = ErrV;

    open spec fn view(&self) -> ErrV {
        match self {
            ResolveError::AddressParse => ErrV::AddressParse,
            ResolveError::PortParse => ErrV::PortParse,
            ResolveError::SubnetParse => ErrV::SubnetParse,
            ResolveError::TargetPortMissing(_) => ErrV::TargetPortMissing,
            ResolveError::PortSplit(e) => ErrV::PortSplit(encode_utf8(e@)),
            ResolveError::ModeUnresolved(_) => ErrV::ModeUnresolved,
            ResolveError::IdleScanValue(_) => ErrV::IdleScanValue,
            ResolveError::MissingTarget => ErrV::MissingTarget,
        }
    }
}

} // verus!
