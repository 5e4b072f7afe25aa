use vstd::prelude::*;
use crate::bytes::{
    all_digits, digits_val, strip_plus, split_on, vecs_view, split_bytes, parse_digits_max,
    lemma_split_on_len,
};

verus! {

/// An IPv4 address as four octets.
#[derive(Clone, Copy, Debug, PartialEq, Eq, Structural)]
pub struct Ipv4 {
    pub a: u8,
    pub b: u8,
    pub c: u8,
    pub d: u8,
}

/// One octet of a dotted-quad address, as `Ipv4Addr::from_str` accepts it:
/// only digits, no leading zero, value at most 255.
pub open spec fn is_octet(s: Seq<u8>) -> bool {
    s.len() >= 1 && all_digits(s) && (s.len() == 1 || s[0] != 48) && digits_val(s) <= 255
}

pub open spec fn octet_val(s: Seq<u8>) -> u8 {
    digits_val(s) as u8
}

/// A dotted-quad IPv4 address: four octets separated by dots.
pub open spec fn is_ipv4(s: Seq<u8>) -> bool {
    let p = split_on(s, 46);
    p.len() == 4 && is_octet(p[0]) && is_octet(p[1]) && is_octet(p[2]) && is_octet(p[3])
}

pub open spec fn ipv4_of(s: Seq<u8>) -> Ipv4 {
    let p = split_on(s, 46);
    Ipv4 { a: octet_val(p[0]), b: octet_val(p[1]), c: octet_val(p[2]), d: octet_val(p[3]) }
}

fn parse_octet(s: &[u8]) -> (r: Option<u8>)
    ensures
        r is Some <==> is_octet(s@),
        r matches Some(v) ==> v == octet_val(s@),
{
    if s.len() > 1 && s[0] == 48 {
        return None;
    }
    proof {
        assert(s@.skip(0) =~= s@);
    }
    match parse_digits_max(s, 0, 255) {
        Some(v) => Some(v as u8),
        None => None,
    }
}

/// Parse a dotted-quad IPv4 address, as `Ipv4Addr::from_str` accepts it.
pub fn parse_ipv4(s: &[u8]) -> (r: Option<Ipv4>)
    ensures
        r is Some <==> is_ipv4(s@),
        r matches Some(v) ==> v == ipv4_of(s@),
{
    let parts = split_bytes(s, 46);
    proof {
        lemma_split_on_len(s@, 46);
    }
    if parts.len() != 4 {
        return None;
    }
    proof {
        assert(parts@[0]@ == vecs_view(parts@)[0]);
        assert(parts@[1]@ == vecs_view(parts@)[1]);
        assert(parts@[2]@ == vecs_view(parts@)[2]);
        assert(parts@[3]@ == vecs_view(parts@)[3]);
    }
    let a = match parse_octet(parts[0].as_slice()) {
        Some(v) => v,
        None => {
            return None;
        },
    };
    let b = match parse_octet(parts[1].as_slice()) {
        Some(v) => v,
        None => {
            return None;
        },
    };
    let c = match parse_octet(parts[2].as_slice()) {
        Some(v) => v,
        None => {
            return None;
        },
    };
    let d = match parse_octet(parts[3].as_slice()) {
        Some(v) => v,
        None => {
            return None;
        },
    };
    Some(Ipv4 { a, b, c, d })
}

/// An IPv4 CIDR block: a base address and a prefix length of at most 32 bits.
#[derive(Clone, Copy, Debug, PartialEq, Eq, Structural)]
pub struct CidrV4 {
    pub addr: Ipv4,
    pub prefix: u8,
}

impl CidrV4 {
    /// A well-formed block never claims more prefix bits than an address has.
    pub open spec fn wf(self) -> bool {
        self.prefix <= 32
    }
}

/// A decimal prefix length: an optional '+', then digits, value at most 32.
pub open spec fn is_dec_prefix(s: Seq<u8>) -> bool {
    strip_plus(s).len() > 0 && all_digits(strip_plus(s)) && digits_val(strip_plus(s)) <= 32
}

pub open spec fn dec_prefix_val(s: Seq<u8>) -> u8 {
    digits_val(strip_plus(s)) as u8
}

/// What the subnet field accepts: "address/prefix" with a dotted-quad
/// address and a decimal prefix length of at most 32.
pub open spec fn is_cidr(s: Seq<u8>) -> bool {
    let p = split_on(s, 47);
    p.len() == 2 && is_ipv4(p[0]) && is_dec_prefix(p[1])
}

pub open spec fn cidr_of(s: Seq<u8>) -> CidrV4 {
    let p = split_on(s, 47);
    CidrV4 { addr: ipv4_of(p[0]), prefix: dec_prefix_val(p[1]) }
}

fn parse_prefix(s: &[u8]) -> (r: Option<u8>)
    ensures
        r is Some <==> is_dec_prefix(s@),
        r matches Some(v) ==> v == dec_prefix_val(s@),
{
    let from: usize = if s.len() > 0 && s[0] == 43 {
        1
    } else {
        0
    };
    proof {
        assert(s@.skip(from as int) =~= strip_plus(s@));
    }
    match parse_digits_max(s, from, 32) {
        Some(v) => Some(v as u8),
        None => None,
    }
}

/// Parse an IPv4 CIDR block written as "address/prefix".
pub fn parse_cidr(s: &[u8]) -> (r: Option<CidrV4>)
    ensures
        r is Some <==> is_cidr(s@),
        r matches Some(v) ==> v == cidr_of(s@) && v.wf(),
{
    let parts = split_bytes(s, 47);
    proof {
        lemma_split_on_len(s@, 47);
    }
    if parts.len() != 2 {
        return None;
    }
    proof {
        assert(parts@[0]@ == vecs_view(parts@)[0]);
        assert(parts@[1]@ == vecs_view(parts@)[1]);
    }
    let addr = match parse_ipv4(parts[0].as_slice()) {
        Some(v) => v,
        None => {
            return None;
        },
    };
    let prefix = match parse_prefix(parts[1].as_slice()) {
        Some(v) => v,
        None => {
            return None;
        },
    };
    proof {
        crate::bytes::lemma_digits_val_nonneg(strip_plus(parts@[1]@));
    }
    Some(CidrV4 { addr, prefix })
}

} // verus!
