//! The head of a stored secret hash: the part that says how expensive it is
//! to check a password against it.
//!
//! A stored hash is a line of text in five `$`-separated fields,
//!
//! ```text
//! $rscrypt$0$<cost>$<salt>$<digest>$
//! ```
//!
//! where `<cost>` is four base64 digits for the three bytes `log_n`, `r`, `p`.
//! This module reads the head up to and including the `$` that closes
//! `<cost>`. Salt and digest are left to the key derivation itself.

use vstd::prelude::*;
use vstd::string::*;

verus! {

/// Cost parameters of the key derivation: `2^log_n` iterations over blocks of
/// `128 * r` bytes, in `p` independent lanes.
#[derive(Clone, Copy, Debug, PartialEq, Eq, Structural)]
pub struct WorkFactor {
    pub log_n: u8,
    pub r: u32,
    pub p: u32,
}

/// The work factor at which this library hashes, and the most it is willing
/// to spend on one verification.
pub open spec fn standard_work_factor() -> WorkFactor {
    WorkFactor { log_n: 15, r: 8, p: 1 }
}

impl WorkFactor {
    /// No parameter exceeds the corresponding one of `ceiling`.
    pub open spec fn within(self, ceiling: WorkFactor) -> bool {
        self.log_n <= ceiling.log_n && self.r <= ceiling.r && self.p <= ceiling.p
    }

    /// The work factor at which this library hashes.
    pub fn standard() -> (cost: WorkFactor)
        ensures
            cost == standard_work_factor(),
    {
        WorkFactor { log_n: 15, r: 8, p: 1 }
    }

    /// Executable form of [`WorkFactor::within`].
    pub fn is_within(&self, ceiling: &WorkFactor) -> (fits: bool)
        ensures
            fits == self.within(*ceiling),
    {
        self.log_n <= ceiling.log_n && self.r <= ceiling.r && self.p <= ceiling.p
    }
}

/// What every stored hash in the compact layout begins with.
pub open spec fn layout_marker() -> Seq<char> {
    "$rscrypt$0$"@
}

/// Value of one digit of the standard base64 alphabet, `None` for any other
/// character.
pub open spec fn sextet_of(digit: char) -> Option<u8> {
    if 'A' <= digit <= 'Z' {
        Some((digit as u8 - 'A' as u8) as u8)
    } else if 'a' <= digit <= 'z' {
        Some((digit as u8 - 'a' as u8 + 26) as u8)
    } else if '0' <= digit <= '9' {
        Some((digit as u8 - '0' as u8 + 52) as u8)
    } else if digit == '+' {
        Some(62u8)
    } else if digit == '/' {
        Some(63u8)
    } else {
        None
    }
}

/// The three bytes that four base64 digits stand for, read as a work factor.
pub open spec fn cost_of_sextets(a: u8, b: u8, c: u8, d: u8) -> WorkFactor {
    WorkFactor {
        log_n: (a * 4 + b / 16) as u8,
        r: ((b % 16) * 16 + c / 4) as u32,
        p: ((c % 4) * 64 + d) as u32,
    }
}

/// The work factor that the head of `stored` carries, if `stored` has a head
/// in the compact layout.
pub open spec fn embedded_cost(stored: Seq<char>) -> Option<WorkFactor> {
    let m = layout_marker().len() as int;
    if stored.len() >= m + 5 && stored.subrange(0, m) == layout_marker() && stored[m + 4] == '$' {
        match (
            sextet_of(stored[m]),
            sextet_of(stored[m + 1]),
            sextet_of(stored[m + 2]),
            sextet_of(stored[m + 3]),
        ) {
            (Some(a), Some(b), Some(c), Some(d)) => Some(cost_of_sextets(a, b, c, d)),
            _ => None,
        }
    } else {
        None
    }
}

/// Whether checking a password against `stored` costs no more than hashing
/// one at the standard work factor.
pub open spec fn cost_bounded(stored: Seq<char>) -> bool {
    embedded_cost(stored) matches Some(cost) && cost.within(standard_work_factor())
}

/// Executable form of [`sextet_of`].
fn sextet(digit: char) -> (value: Option<u8>)
    ensures
        value == sextet_of(digit),
        value matches Some(v) ==> v < 64,
{
    if 'A' <= digit && digit <= 'Z' {
        Some(digit as u8 - 'A' as u8)
    } else if 'a' <= digit && digit <= 'z' {
        Some(digit as u8 - 'a' as u8 + 26)
    } else if '0' <= digit && digit <= '9' {
        Some(digit as u8 - '0' as u8 + 52)
    } else if digit == '+' {
        Some(62)
    } else if digit == '/' {
        Some(63)
    } else {
        None
    }
}

/// Whether `text` begins with `marker`, character by character.
fn starts_with(text: &str, marker: &str) -> (found: bool)
    ensures
        found == (marker@.len() <= text@.len() && text@.subrange(0, marker@.len() as int)
            == marker@),
{
    let length = marker.unicode_len();
    if text.unicode_len() < length {
        return false;
    }
    let mut i: usize = 0;
    while i < length
        invariant
            length == marker@.len(),
            length <= text@.len(),
            i <= length,
            forall|k: int| 0 <= k < i ==> text@[k] == marker@[k],
        decreases length - i,
    {
        if text.get_char(i) != marker.get_char(i) {
            assert(text@.subrange(0, length as int)[i as int] != marker@[i as int]);
            return false;
        }
        i += 1;
    }
    assert(text@.subrange(0, length as int) =~= marker@);
    true
}

/// Reads the work factor out of the head of a stored hash.
///
/// Returns `None` for every text that does not begin with the marker, four
/// base64 digits and a `$`.
pub fn read_embedded_cost(stored: &str) -> (cost: Option<WorkFactor>)
    ensures
        cost == embedded_cost(stored@),
{
    let marker = "$rscrypt$0$";
    if !starts_with(stored, marker) {
        return None;
    }
    let m = marker.unicode_len();
    proof {
        reveal_strlit("$rscrypt$0$");
    }
    if stored.unicode_len() < m + 5 {
        return None;
    }
    if stored.get_char(m + 4) != '$' {
        return None;
    }
    let a = sextet(stored.get_char(m));
    let b = sextet(stored.get_char(m + 1));
    let c = sextet(stored.get_char(m + 2));
    let d = sextet(stored.get_char(m + 3));
    match (a, b, c, d) {
        (Some(a), Some(b), Some(c), Some(d)) => {
            let log_n: u8 = a * 4 + b / 16;
            let r: u8 = (b % 16) * 16 + c / 4;
            let p: u8 = (c % 4) * 64 + d;
            Some(WorkFactor { log_n, r: r as u32, p: p as u32 })
        },
        _ => None,
    }
}

} // verus!
