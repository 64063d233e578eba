//! The random source: the thread-local generator of `rand` and the two
//! distributions drawn from it. Nothing in this file is proved; each contract
//! states what the `rand` source shows of the call it stands for, and, since
//! the draws are random, only what holds of every outcome.

use crate::alphabet::alphanumeric;
use rand::distributions::{Alphanumeric, DistString, Distribution, Uniform};
use rand::rngs::ThreadRng;
use vstd::prelude::*;

verus! {

/// `rand::rngs::ThreadRng`, a handle to the calling thread's generator.
#[verifier::external_type_specification]
#[verifier::external_body]
pub struct ExThreadRng(ThreadRng);

/// A `rand::distributions::Uniform<usize>` over a range that starts at zero.
///
/// `Uniform` is declared with a bound by a trait of `rand`, which keeps Verus
/// from taking the type as it is; so the distribution is held in this struct,
/// whose inside Verus does not read.
#[verifier::external_body]
pub struct IndexDistribution {
    dist: Uniform<usize>,
}

/// The exclusive upper end of the range that an index distribution was made
/// for.
pub uninterp spec fn index_bound(dist: IndexDistribution) -> nat;

/// `rand::thread_rng`: the calling thread's generator, seeded by the system on
/// first use. Nothing is claimed of the handle. The call panics where the
/// system has no entropy to seed the generator with.
pub assume_specification[ rand::thread_rng ]() -> (rng: ThreadRng);

/// `Alphanumeric.sample_string`: a string of `len` draws, each an ASCII letter
/// or digit, so the string has `len` characters and all of them are
/// alphanumeric.
#[verifier::external_body]
pub(crate) fn sample_alphanumeric(rng: &mut ThreadRng, len: usize) -> (text: String)
    ensures
        text@.len() == len,
        forall|i: int| 0 <= i < text@.len() ==> alphanumeric().contains(#[trigger] text@[i]),
{
    Alphanumeric.sample_string(rng, len)
}

/// `Uniform::from(0..n)`: the uniform distribution over `[0, n)`. The call
/// panics on an empty range, hence `n > 0`.
#[verifier::external_body]
pub(crate) fn index_distribution(n: usize) -> (dist: IndexDistribution)
    requires
        n > 0,
    ensures
        index_bound(dist) == n,
{
    IndexDistribution { dist: Uniform::from(0..n) }
}

/// `Distribution::sample` on an index distribution: one draw, which lies
/// below the end of the range that the distribution was made for.
#[verifier::external_body]
pub(crate) fn draw_index(dist: &IndexDistribution, rng: &mut ThreadRng) -> (index: usize)
    ensures
        index < index_bound(*dist),
{
    dist.dist.sample(rng)
}

} // verus!
