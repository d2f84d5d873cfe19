//! Hashing a plaintext secret for storage, and checking a plaintext against a
//! stored hash.
//!
//! The key derivation is scrypt, taken from the `scrypt` crate. What this
//! module adds is the fixed work factor, the refusal to spend more than that
//! on a stored hash that asks for it, and the mapping of every failure of a
//! check to a plain `false`.

use vstd::prelude::*;
use crate::stored_hash::{
    cost_bounded, embedded_cost, read_embedded_cost, standard_work_factor, WorkFactor,
};

verus! {

/// `scrypt::ScryptParams`, validated cost parameters. Nothing of its content
/// is visible here.
#[verifier::external_type_specification]
#[verifier::external_body]
pub struct ExScryptParams(scrypt::ScryptParams);

/// `scrypt::errors::InvalidParams`, the refusal of `ScryptParams::new`.
#[verifier::external_type_specification]
#[verifier::external_body]
pub struct ExInvalidParams(scrypt::errors::InvalidParams);

/// `std::io::Error`, which `scrypt_simple` returns when the operating system
/// gives no random bytes.
#[verifier::external_type_specification]
#[verifier::external_body]
pub struct ExIoError(std::io::Error);

/// `scrypt::ScryptParams::new`. Claimed, first: parameters with `log_n`
/// below 16 and `r` and `p` between 1 and 255 are accepted. For these none of
/// its overflow checks can fail, on a 32-bit target either
/// (`2^15 * 255 * 128 < 2^32`), `log_n < 16 * r`, and `r * p < 2^30`.
/// Claimed, second: whatever it accepts meets the conditions that its
/// documentation lists, `log_n < 64`, `r > 0`, `p > 0`.
pub assume_specification[ scrypt::ScryptParams::new ](log_n: u8, r: u32, p: u32) -> (params:
    Result<scrypt::ScryptParams, scrypt::errors::InvalidParams>)
    ensures
        log_n < 16 && 1 <= r < 256 && 1 <= p < 256 ==> params is Ok,
        params is Ok ==> log_n < 64 && r > 0 && p > 0,
;

/// How a check of a password against a stored hash can end.
#[derive(Clone, Copy, Debug, PartialEq, Eq, Structural)]
pub enum CheckOutcome {
    /// The password hashes to the stored digest.
    Match,
    /// The stored hash is well formed and the password hashes to another digest.
    Mismatch,
    /// The stored hash is not a hash in the expected layout.
    InvalidFormat,
}

/// What `scrypt::scrypt_check` answers for a password and a stored hash. The
/// answer is a function of the two texts: the function reads nothing else.
pub uninterp spec fn scrypt_check_outcome(password: Seq<char>, hashed_value: Seq<char>) -> CheckOutcome;

/// `scrypt::scrypt_simple`. Claimed: a hash that it returns for a password is
/// one that `scrypt_check` accepts for the same password. It writes the
/// parameters and the salt it used into the hash, and `scrypt_check` derives
/// the key again from exactly these. Nothing is claimed of when it fails; it
/// does so when the operating system's random source does.
pub assume_specification[ scrypt::scrypt_simple ](
    password: &str,
    params: &scrypt::ScryptParams,
) -> (hashed: Result<String, std::io::Error>)
    ensures
        hashed matches Ok(value) ==> scrypt_check_outcome(password@, value@) is Match,
;

/// `scrypt::scrypt_check`. Claimed: for a stored hash whose head carries a
/// bounded cost it returns, with the answer that [`scrypt_check_outcome`]
/// names. What it cannot parse after the head it answers with
/// `InvalidFormat`, not with a panic, and so it does parameters that
/// `ScryptParams::new` refuses. The memory and time it takes are set by the
/// parameters in the head, which is why the call is only made where these
/// are bounded.
#[verifier::external_body]
fn scrypt_check(password: &str, hashed_value: &str) -> (outcome: CheckOutcome)
    requires
        cost_bounded(hashed_value@),
    ensures
        outcome == scrypt_check_outcome(password@, hashed_value@),
{
    match scrypt::scrypt_check(password, hashed_value) {
        Ok(()) => CheckOutcome::Match,
        Err(scrypt::errors::CheckError::HashMismatch) => CheckOutcome::Mismatch,
        Err(scrypt::errors::CheckError::InvalidFormat) => CheckOutcome::InvalidFormat,
    }
}

/// Why no hash could be produced.
#[derive(Clone, Copy, Debug, PartialEq, Eq, Structural)]
pub enum HashError {
    /// The operating system's random source failed. There is no recovering
    /// from this within a request.
    EntropySource,
    /// The key derivation returned a text whose head does not carry the
    /// standard work factor.
    UnexpectedLayout,
}

/// Whether `plaintext` is the secret that `stored_hash` was made from, as far
/// as this library is willing to find out: the stored hash must not ask for
/// more work than the standard work factor, and the key derived from
/// `plaintext` must equal the stored digest.
pub open spec fn verifies(plaintext: Seq<char>, stored_hash: Seq<char>) -> bool {
    cost_bounded(stored_hash) && scrypt_check_outcome(plaintext, stored_hash) is Match
}

/// What [`hash`] returns for each thing the key derivation can hand back.
pub open spec fn sealed(derived: Result<String, std::io::Error>) -> Result<String, HashError> {
    match derived {
        Ok(value) => if embedded_cost(value@) == Some(standard_work_factor()) {
            Ok(value)
        } else {
            Err(HashError::UnexpectedLayout)
        },
        Err(_) => Err(HashError::EntropySource),
    }
}

impl CheckOutcome {
    /// Whether the check succeeded. Every other outcome is a plain failure;
    /// callers are not told which.
    pub fn is_match(&self) -> (matched: bool)
        ensures
            matched == (*self is Match),
    {
        match self {
            CheckOutcome::Match => true,
            CheckOutcome::Mismatch => false,
            CheckOutcome::InvalidFormat => false,
        }
    }
}

/// Turns what the key derivation handed back into the result of [`hash`]:
/// the hash itself if its head carries the standard work factor, an error
/// otherwise.
pub fn seal(derived: Result<String, std::io::Error>) -> (stored: Result<String, HashError>)
    ensures
        stored == sealed(derived),
{
    match derived {
        Ok(value) => {
            match read_embedded_cost(value.as_str()) {
                Some(cost) => {
                    if cost == WorkFactor::standard() {
                        Ok(value)
                    } else {
                        Err(HashError::UnexpectedLayout)
                    }
                },
                None => Err(HashError::UnexpectedLayout),
            }
        },
        Err(_) => Err(HashError::EntropySource),
    }
}

/// Hashes a plaintext secret for storage, at the standard work factor and
/// with a fresh random salt.
///
/// The salt is drawn anew on every call, so two hashes of one plaintext
/// differ. What holds of each: its head carries the standard work factor, and
/// [`verify`] accepts it for the plaintext it was made from.
pub fn hash(plaintext: &str) -> (stored: Result<String, HashError>)
    ensures
        stored matches Ok(value) ==> {
            &&& embedded_cost(value@) == Some(standard_work_factor())
            &&& verifies(plaintext@, value@)
        },
{
    let cost = WorkFactor::standard();
    let params = scrypt::ScryptParams::new(cost.log_n, cost.r, cost.p).unwrap();
    let derived = scrypt::scrypt_simple(plaintext, &params);
    seal(derived)
}

/// Checks a plaintext secret against a stored hash.
///
/// Returns `false`, without deriving any key, for a stored hash whose head is
/// malformed or asks for more than the standard work factor; `false` as well
/// for whatever else the key derivation finds malformed, and for a plaintext
/// that hashes to another digest. The caller cannot tell these apart.
pub fn verify(plaintext: &str, stored_hash: &str) -> (accepted: bool)
    ensures
        accepted == verifies(plaintext@, stored_hash@),
{
    let bounded = match read_embedded_cost(stored_hash) {
        Some(cost) => cost.is_within(&WorkFactor::standard()),
        None => false,
    };
    if bounded {
        scrypt_check(plaintext, stored_hash).is_match()
    } else {
        false
    }
}

} // verus!
