use vstd::prelude::*;
use crate::bytes::{
    is_dec_u16, dec_u16_val, split_on, is_null_str, vecs_view, split_bytes, parse_u16,
    is_null_sentinel, lemma_split_on_len,
};

verus! {

/// The shape of a raw target-port string once resolved.
#[derive(Clone, Copy, Debug, PartialEq, Eq, Structural)]
pub enum PortSpec {
    /// The sentinel or an empty string: no port was supplied.
    Missing,
    /// One 16-bit port number.
    Single(u16),
    /// Two 16-bit port numbers separated by '-': a range.
    Range(u16, u16),
    /// A string with '-' that does not split into exactly two parts.
    MalformedSplit,
    /// A part that does not parse as a 16-bit number.
    MalformedNumber,
}

/// How a raw port string resolves: the sentinel or an empty string is a
/// missing port; a string holding '-' must split into exactly two 16-bit
/// numbers; anything else must be one 16-bit number.
pub open spec fn spec_port_spec(s: Seq<u8>) -> PortSpec {
    if is_null_str(s) || s.len() == 0 {
        PortSpec::Missing
    } else {
        let p = split_on(s, 45);
        if p.len() >= 2 {
            if p.len() != 2 {
                PortSpec::MalformedSplit
            } else if is_dec_u16(p[0]) && is_dec_u16(p[1]) {
                PortSpec::Range(dec_u16_val(p[0]), dec_u16_val(p[1]))
            } else {
                PortSpec::MalformedNumber
            }
        } else {
            if is_dec_u16(s) {
                PortSpec::Single(dec_u16_val(s))
            } else {
                PortSpec::MalformedNumber
            }
        }
    }
}

/// Resolve a raw target-port string.
pub fn resolve_port_spec(s: &[u8]) -> (r: PortSpec)
    ensures
        r == spec_port_spec(s@),
{
    if is_null_sentinel(s) || s.len() == 0 {
        return PortSpec::Missing;
    }
    let parts = split_bytes(s, 45);
    proof {
        lemma_split_on_len(s@, 45);
    }
    if parts.len() >= 2 {
        if parts.len() != 2 {
            return PortSpec::MalformedSplit;
        }
        proof {
            assert(parts@[0]@ == vecs_view(parts@)[0]);
            assert(parts@[1]@ == vecs_view(parts@)[1]);
        }
        let start = match parse_u16(parts[0].as_slice()) {
            Some(v) => v,
            None => {
                return PortSpec::MalformedNumber;
            },
        };
        let end = match parse_u16(parts[1].as_slice()) {
            Some(v) => v,
            None => {
                return PortSpec::MalformedNumber;
            },
        };
        PortSpec::Range(start, end)
    } else {
        match parse_u16(s) {
            Some(v) => PortSpec::Single(v),
            None => PortSpec::MalformedNumber,
        }
    }
}

} // verus!
