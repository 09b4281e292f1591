//! Calls into outside crates, each behind a contract that its source shows.
use vstd::prelude::*;

use crate::worker::{leading_zero_bits, HashOutput};

verus! {

#[verifier::external_type_specification]
#[verifier::external_body]
pub struct ExSolverMemory(drillx::equix::SolverMemory);

/// The digest and hash that drillx computes for a challenge and a nonce,
/// or `None` where the equihash solver finds no solution.
pub uninterp spec fn drillx_hash(challenge: Seq<u8>, nonce: u64) -> Option<(Seq<u8>, Seq<u8>)>;

/// Relies on drillx::hash_with_memory: its outcome depends on the challenge
/// and the nonce (as little-endian bytes) alone; `memory` is scratch space.
#[verifier::external_body]
pub(crate) fn hash_nonce(
    memory: &mut drillx::equix::SolverMemory,
    challenge: &[u8; 32],
    nonce: u64,
) -> (r: Option<HashOutput>)
    ensures
        r is None <==> drillx_hash(challenge@, nonce) is None,
        r matches Some(o) ==> drillx_hash(challenge@, nonce) == Some((o.digest@, o.hash@)),
{
    match drillx::hash_with_memory(memory, challenge, &nonce.to_le_bytes()) {
        Ok(h) => Some(HashOutput { digest: h.d, hash: h.h }),
        Err(_) => None,
    }
}

/// Relies on drillx::difficulty: the count of leading zero bits of the hash,
/// taken byte by byte from the first byte.
#[verifier::external_body]
pub(crate) fn hash_difficulty(hash: &[u8; 32]) -> (r: u32)
    ensures
        r == leading_zero_bits(hash@),
{
    drillx::difficulty(*hash)
}

/// Relies on ore_api::consts::EPOCH_DURATION, five minutes in seconds.
#[verifier::external_body]
pub(crate) fn epoch_duration() -> (r: i64)
    ensures
        r == 300,
{
    ore_api::consts::EPOCH_DURATION
}

/// Relies on ore_api::consts::BUS_COUNT, the size of the bus address pool.
#[verifier::external_body]
pub(crate) fn bus_count() -> (r: usize)
    ensures
        r == 8,
{
    ore_api::consts::BUS_COUNT
}

/// Relies on rand's thread_rng and Rng::gen_range: a value drawn from
/// `0..n`, which must not be empty.
#[verifier::external_body]
pub(crate) fn random_below(n: usize) -> (r: usize)
    requires
        n > 0,
    ensures
        r < n,
{
    rand::Rng::gen_range(&mut rand::thread_rng(), 0..n)
}

/// Relies on num_cpus::get: the number of CPUs this process may use, which
/// depends on the machine.
#[verifier::external_body]
pub(crate) fn available_cores() -> (r: usize) {
    num_cpus::get()
}

} // verus!
