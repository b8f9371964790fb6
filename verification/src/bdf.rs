//! Bus/Device/Function addresses and their colon-separated hexadecimal text
//! form, `bus:device:function` with one or two digits each.
//!
//! The strict parse is the default and rejects malformed text with
//! `ParseError`; the permissive fallback that yields an all-zero address on
//! malformed input is an explicit opt-in, kept for compatibility.

use vstd::prelude::*;

use vstd::arithmetic::power2::lemma2_to64;
use vstd::string::StringSliceAdditionalSpecFns;

use crate::bytes::find_byte;
use crate::bytes::spec_find_byte;
use crate::error::FmError;
use crate::hexnum::parse_hex_u64;
use crate::hexnum::spec_all_hex;
use crate::hexnum::spec_hex_value;

verus! {

/// Colon, the field separator.
pub const FIELD_SEPARATOR: u8 = 0x3A;

/// A PCIe function address: bus in [0, 255], device in [0, 31], function in
/// [0, 7].
#[derive(Clone, Copy, Debug, PartialEq, Eq, Structural)]
pub struct PcieBdf {
    pub bus: u8,
    pub device: u8,
    pub function: u8,
}

impl PcieBdf {
    /// Device and function lie in their architectural ranges.
    pub open spec fn valid(&self) -> bool {
        self.device < 32 && self.function < 8
    }

    /// Builds an address, refusing out-of-range device or function numbers.
    pub fn new(bus: u8, device: u8, function: u8) -> (r: Result<PcieBdf, FmError>)
        ensures
            r is Ok <==> device < 32 && function < 8,
            r matches Ok(b) ==> b == (PcieBdf { bus, device, function }) && b.valid(),
            r is Err ==> r == Result::<PcieBdf, FmError>::Err(FmError::OutOfRange),
    {
        if device < 32 && function < 8 {
            Ok(PcieBdf { bus, device, function })
        } else {
            Err(FmError::OutOfRange)
        }
    }
}

/// A well-formed address field: one or two hexadecimal digits.
pub open spec fn spec_bdf_field_ok(p: Seq<u8>) -> bool {
    1 <= p.len() <= 2 && spec_all_hex(p)
}

/// What the colon-separated text denotes: the three fields, each one or two
/// hexadecimal digits, with device and function in range; `None` otherwise.
pub open spec fn spec_parse_bdf(s: Seq<u8>) -> Option<PcieBdf> {
    match spec_find_byte(s, FIELD_SEPARATOR, 0, s.len() as int) {
        Option::None => Option::None,
        Option::Some(c1) => match spec_find_byte(s, FIELD_SEPARATOR, c1 + 1, s.len() as int) {
            Option::None => Option::None,
            Option::Some(c2) => {
                if spec_find_byte(s, FIELD_SEPARATOR, c2 + 1, s.len() as int) is Some {
                    Option::None
                } else {
                    let p1 = s.subrange(0, c1);
                    let p2 = s.subrange(c1 + 1, c2);
                    let p3 = s.subrange(c2 + 1, s.len() as int);
                    if spec_bdf_field_ok(p1) && spec_bdf_field_ok(p2) && spec_bdf_field_ok(p3)
                        && spec_hex_value(p2) < 32 && spec_hex_value(p3) < 8 {
                        Option::Some(
                            PcieBdf {
                                bus: spec_hex_value(p1) as u8,
                                device: spec_hex_value(p2) as u8,
                                function: spec_hex_value(p3) as u8,
                            },
                        )
                    } else {
                        Option::None
                    }
                }
            },
        },
    }
}

/// Strictly parses `bus:device:function` from bytes.
pub fn parse_bdf_bytes(s: &[u8]) -> (r: Result<PcieBdf, FmError>)
    ensures
        r matches Ok(b) ==> spec_parse_bdf(s@) == Option::Some(b) && b.valid(),
        r is Err ==> spec_parse_bdf(s@) is None && r == Result::<PcieBdf, FmError>::Err(
            FmError::ParseError,
        ),
{
    let n: usize = s.len();
    let c1 = match find_byte(s, FIELD_SEPARATOR, 0, n) {
        Some(c) => c,
        None => {
            return Err(FmError::ParseError);
        },
    };
    let c2 = match find_byte(s, FIELD_SEPARATOR, c1 + 1, n) {
        Some(c) => c,
        None => {
            return Err(FmError::ParseError);
        },
    };
    match find_byte(s, FIELD_SEPARATOR, c2 + 1, n) {
        Some(_) => {
            return Err(FmError::ParseError);
        },
        None => {},
    };
    if c1 == 0 || c1 > 2 || c2 - c1 - 1 == 0 || c2 - c1 - 1 > 2 || n - c2 - 1 == 0 || n - c2 - 1
        > 2 {
        return Err(FmError::ParseError);
    }
    let v1 = match parse_hex_u64(&s[0..c1]) {
        Ok(v) => v,
        Err(_) => {
            return Err(FmError::ParseError);
        },
    };
    let v2 = match parse_hex_u64(&s[c1 + 1..c2]) {
        Ok(v) => v,
        Err(_) => {
            return Err(FmError::ParseError);
        },
    };
    let v3 = match parse_hex_u64(&s[c2 + 1..n]) {
        Ok(v) => v,
        Err(_) => {
            return Err(FmError::ParseError);
        },
    };
    proof {
        lemma2_to64();
    }
    if v2 >= 32 || v3 >= 8 {
        return Err(FmError::ParseError);
    }
    Ok(PcieBdf { bus: v1 as u8, device: v2 as u8, function: v3 as u8 })
}

/// Strictly parses `bus:device:function`; malformed text is `ParseError`.
pub fn parse_bdf(pcie_bdf: &str) -> (r: Result<PcieBdf, FmError>)
    ensures
        r matches Ok(b) ==> spec_parse_bdf(pcie_bdf.spec_bytes()) == Option::Some(b) && b.valid(),
        r is Err ==> spec_parse_bdf(pcie_bdf.spec_bytes()) is None && r == Result::<
            PcieBdf,
            FmError,
        >::Err(FmError::ParseError),
{
    parse_bdf_bytes(pcie_bdf.as_bytes())
}

/// The permissive fallback: malformed input yields the all-zero address
/// instead of an error.
pub fn extract_bdf(pcie_bdf: &str) -> (b: PcieBdf)
    ensures
        spec_parse_bdf(pcie_bdf.spec_bytes()) matches Option::Some(v) ==> b == v,
        spec_parse_bdf(pcie_bdf.spec_bytes()) is None ==> b == (PcieBdf {
            bus: 0,
            device: 0,
            function: 0,
        }),
        b.valid(),
{
    match parse_bdf_bytes(pcie_bdf.as_bytes()) {
        Ok(b) => b,
        Err(_) => PcieBdf { bus: 0, device: 0, function: 0 },
    }
}

} // verus!
