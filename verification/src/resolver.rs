//! The PCI address resolver: discovers the ECAM base address from a
//! line-oriented system memory-map report, and computes a function's
//! configuration-space address from it.
//!
//! A report line qualifies only if it contains the marker `ECAM`; its base
//! address is the hexadecimal value preceding the `-` delimiter; the first
//! match wins and the scan stops immediately.  The resolved base is an
//! explicitly owned value, never ambient global state, so callers can always
//! distinguish "resolved" from "not resolved".

use vstd::prelude::*;

use crate::bdf::PcieBdf;
use crate::bytes::find_byte;
use crate::bytes::spec_find_byte;
use crate::error::FmError;
use crate::hexnum::parse_hex_u64;
use crate::hexnum::spec_all_hex;
use crate::hexnum::spec_hex_value;

verus! {

/// Newline, the report's line separator.
pub const LINE_SEPARATOR: u8 = 0x0A;

/// The four marker bytes, spelling `ECAM`.
pub open spec fn spec_is_marker_at(r: Seq<u8>, k: int) -> bool {
    &&& 0 <= k
    &&& k + 4 <= r.len()
    &&& r[k] == 0x45u8
    &&& r[k + 1] == 0x43u8
    &&& r[k + 2] == 0x41u8
    &&& r[k + 3] == 0x4Du8
}

/// Position of the first marker at or after `i`.
pub open spec fn spec_find_marker(r: Seq<u8>, i: int) -> Option<int>
    recommends
        0 <= i,
    decreases r.len() - i,
{
    if i + 4 > r.len() {
        None
    } else if spec_is_marker_at(r, i) {
        Some(i)
    } else {
        spec_find_marker(r, i + 1)
    }
}

/// Start of the line around position `k`: just after the previous newline.
pub open spec fn spec_line_start(r: Seq<u8>, k: int) -> int
    recommends
        0 <= k <= r.len(),
    decreases k,
{
    if k <= 0 {
        0
    } else if r[k - 1] == LINE_SEPARATOR {
        k
    } else {
        spec_line_start(r, k - 1)
    }
}

/// First position at or after `i`, below `end`, that is no blank.
pub open spec fn spec_skip_ws(r: Seq<u8>, i: int, end: int) -> int
    recommends
        0 <= i <= end <= r.len(),
    decreases end - i,
{
    if i >= end {
        end
    } else if r[i] == 0x20u8 || r[i] == 0x09u8 {
        spec_skip_ws(r, i + 1, end)
    } else {
        i
    }
}

/// End of the blank-trimmed prefix of `r[start..j)`.
pub open spec fn spec_trim_back(r: Seq<u8>, start: int, j: int) -> int
    recommends
        0 <= start <= j <= r.len(),
    decreases j - start,
{
    if j <= start {
        start
    } else if r[j - 1] == 0x20u8 || r[j - 1] == 0x09u8 {
        spec_trim_back(r, start, j - 1)
    } else {
        j
    }
}

/// What resolving the report yields: `NotFound` without a marker line,
/// `ParseError` when the marker line has no `-` delimiter or no well-formed
/// hexadecimal value before it, else the base address.
pub open spec fn spec_resolve_ecam_base(r: Seq<u8>) -> Result<u64, FmError> {
    match spec_find_marker(r, 0) {
        Option::None => Result::Err(FmError::NotFound),
        Option::Some(k) => {
            let ls = spec_line_start(r, k);
            let le = match spec_find_byte(r, LINE_SEPARATOR, k, r.len() as int) {
                Option::Some(e) => e,
                Option::None => r.len() as int,
            };
            match spec_find_byte(r, 0x2Du8, ls, le) {
                Option::None => Result::Err(FmError::ParseError),
                Option::Some(d) => {
                    let a = spec_skip_ws(r, ls, d);
                    let b = spec_trim_back(r, a, d);
                    let s = r.subrange(a, b);
                    if 1 <= s.len() <= 16 && spec_all_hex(s) {
                        Result::Ok(spec_hex_value(s) as u64)
                    } else {
                        Result::Err(FmError::ParseError)
                    }
                },
            }
        },
    }
}

/// Finds the first marker in the report.
fn find_marker(r: &[u8]) -> (o: Option<usize>)
    ensures
        match o {
            Some(k) => spec_find_marker(r@, 0) == Some(k as int) && k + 4 <= r@.len(),
            None => spec_find_marker(r@, 0) is None,
        },
{
    let n: usize = r.len();
    if n < 4 {
        return None;
    }
    let mut i: usize = 0;
    while i <= n - 4
        invariant
            4 <= n,
            n == r@.len(),
            i <= n,
            spec_find_marker(r@, 0) == spec_find_marker(r@, i as int),
        decreases n - i,
    {
        if r[i] == 0x45 && r[i + 1] == 0x43 && r[i + 2] == 0x41 && r[i + 3] == 0x4D {
            return Some(i);
        }
        i = i + 1;
    }
    None
}

/// Walks back to the start of the line around `k`.
fn line_start_of(r: &[u8], k: usize) -> (s: usize)
    requires
        k <= r@.len(),
    ensures
        s == spec_line_start(r@, k as int),
        s <= k,
{
    let mut j: usize = k;
    while j > 0 && r[j - 1] != LINE_SEPARATOR
        invariant
            j <= k <= r@.len(),
            spec_line_start(r@, k as int) == spec_line_start(r@, j as int),
        decreases j,
    {
        j = j - 1;
    }
    j
}

/// Skips blanks forward in `r[i..end)`.
fn skip_ws(r: &[u8], i: usize, end: usize) -> (a: usize)
    requires
        i <= end,
        end <= r@.len(),
    ensures
        a == spec_skip_ws(r@, i as int, end as int),
        i <= a <= end,
{
    let mut j: usize = i;
    while j < end && (r[j] == 0x20 || r[j] == 0x09)
        invariant
            i <= j <= end <= r@.len(),
            spec_skip_ws(r@, i as int, end as int) == spec_skip_ws(r@, j as int, end as int),
        decreases end - j,
    {
        j = j + 1;
    }
    j
}

/// Trims blanks off the back of `r[start..j)`.
fn trim_back(r: &[u8], start: usize, j: usize) -> (b: usize)
    requires
        start <= j,
        j <= r@.len(),
    ensures
        b == spec_trim_back(r@, start as int, j as int),
        start <= b <= j,
{
    let mut e: usize = j;
    while e > start && (r[e - 1] == 0x20 || r[e - 1] == 0x09)
        invariant
            start <= e <= j <= r@.len(),
            spec_trim_back(r@, start as int, j as int) == spec_trim_back(
                r@,
                start as int,
                e as int,
            ),
        decreases e,
    {
        e = e - 1;
    }
    e
}

/// Scans the memory-map report for the first line containing the `ECAM`
/// marker and parses the hexadecimal base address preceding its `-`
/// delimiter.  Fails with `NotFound` when no line qualifies, and with
/// `ParseError` on a qualifying line whose value is malformed; the base is
/// never silently defaulted.
pub fn resolve_ecam_base(report: &[u8]) -> (r: Result<u64, FmError>)
    ensures
        r == spec_resolve_ecam_base(report@),
{
    let n: usize = report.len();
    let k = match find_marker(report) {
        Some(k) => k,
        None => {
            return Err(FmError::NotFound);
        },
    };
    let ls = line_start_of(report, k);
    let le = match find_byte(report, LINE_SEPARATOR, k, n) {
        Some(e) => e,
        None => n,
    };
    assert(ls <= k <= le);
    let d = match find_byte(report, 0x2D, ls, le) {
        Some(d) => d,
        None => {
            return Err(FmError::ParseError);
        },
    };
    let a = skip_ws(report, ls, d);
    let b = trim_back(report, a, d);
    parse_hex_u64(&report[a..b])
}

/// The resolver instance owning one resolved ECAM base address.
pub struct PciAddressResolver {
    ecam_base: u64,
}

/// Largest configuration-space offset a BDF can add to the base.
pub const MAX_BDF_OFFSET: u64 = 0xFFF_F000;

impl PciAddressResolver {
    /// The owned base address.
    pub closed spec fn spec_ecam_base(&self) -> u64 {
        self.ecam_base
    }

    /// Every resolvable address fits in sixty-four bits.
    pub open spec fn wf(&self) -> bool {
        self.spec_ecam_base() + 0xFFF_F000 <= u64::MAX
    }

    /// Builds a resolver from a memory-map report.  On top of the report
    /// scan's own failures, a base so high that some configuration-space
    /// address would overflow is refused with `OutOfRange`.
    pub fn from_report(report: &[u8]) -> (r: Result<PciAddressResolver, FmError>)
        ensures
            r matches Ok(res) ==> {
                &&& res.wf()
                &&& spec_resolve_ecam_base(report@) == Result::<u64, FmError>::Ok(
                    res.spec_ecam_base(),
                )
            },
            r matches Err(e) ==> match spec_resolve_ecam_base(report@) {
                Result::Ok(base) => base + 0xFFF_F000 > u64::MAX && e == FmError::OutOfRange,
                Result::Err(e2) => e == e2,
            },
    {
        match resolve_ecam_base(report) {
            Err(e) => Err(e),
            Ok(base) => {
                if base > u64::MAX - MAX_BDF_OFFSET {
                    Err(FmError::OutOfRange)
                } else {
                    Ok(PciAddressResolver { ecam_base: base })
                }
            },
        }
    }

    /// Wraps an already-known base address, for tests and for callers that
    /// obtained it elsewhere.
    pub fn with_base(base: u64) -> (r: Result<PciAddressResolver, FmError>)
        ensures
            r is Ok <==> base + 0xFFF_F000 <= u64::MAX,
            r matches Ok(res) ==> res.wf() && res.spec_ecam_base() == base,
            r is Err ==> r == Result::<PciAddressResolver, FmError>::Err(FmError::OutOfRange),
    {
        if base > u64::MAX - MAX_BDF_OFFSET {
            Err(FmError::OutOfRange)
        } else {
            Ok(PciAddressResolver { ecam_base: base })
        }
    }

    /// The resolved base address.
    pub fn ecam_base(&self) -> (b: u64)
        ensures
            b == self.spec_ecam_base(),
    {
        self.ecam_base
    }

    /// The configuration-space address of a function: the base plus one
    /// megabyte per bus, thirty-two kilobytes per device and four kilobytes
    /// per function, per extended configuration addressing.
    pub fn resolve_address(&self, bdf: &PcieBdf) -> (a: u64)
        requires
            self.wf(),
            bdf.valid(),
        ensures
            a == self.spec_ecam_base() + bdf.bus * 0x10_0000 + bdf.device * 0x8000 + bdf.function
                * 0x1000,
    {
        self.ecam_base + (bdf.bus as u64) * 0x10_0000 + (bdf.device as u64) * 0x8000 + (
        bdf.function as u64) * 0x1000
    }
}

} // verus!
