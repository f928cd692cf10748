//! Reproducible seeding of the pseudo-random generator every environment
//! owns.

use rand::SeedableRng;
use vstd::prelude::*;

verus! {

/// `rand_pcg::Pcg64` (an alias of `Lcg128Xsl64`), the PCG-XSL-RR 128/64
/// generator; its state is opaque here.
#[verifier::external_type_specification]
#[verifier::external_body]
pub struct ExLcg128Xsl64(rand_pcg::Lcg128Xsl64);

/// The generator state that seeding with one number builds: a pure function
/// of the seed alone, identical in every process and on every machine.
pub uninterp spec fn pcg64_from_seed(seed: u64) -> rand_pcg::Pcg64;

/// Relies on `SeedableRng::seed_from_u64` for `rand_pcg::Lcg128Xsl64`: the
/// generator state is computed from the seed number alone,
/// deterministically.
#[verifier::external_body]
fn pcg_seeded(seed: u64) -> (r: rand_pcg::Pcg64)
    ensures
        r == pcg64_from_seed(seed),
{
    rand_pcg::Pcg64::seed_from_u64(seed)
}

/// Relies on `rand::random`: one fresh number from the thread-local
/// generator, used only when the caller supplies no seed; nothing is
/// promised of its value.
#[verifier::external_body]
fn entropy_u64() -> (r: u64) {
    rand::random::<u64>()
}

/// Generates a PRNG using the PCG64 algorithm.
///
/// Returns the PRNG instance along with the seed number used to initiate
/// the generator: the caller's seed when one is given, a fresh number from
/// the operating system's entropy otherwise. The generator is always the
/// one that seeding with the returned number builds, so keeping that number
/// reproduces the run.
pub fn rand_random(seed: Option<u64>) -> (r: (rand_pcg::Pcg64, u64))
    ensures
        r.0 == pcg64_from_seed(r.1),
        seed matches Some(s) ==> r.1 == s,
{
    let seed_no = match seed {
        Some(s) => s,
        None => entropy_u64(),
    };
    let generator = pcg_seeded(seed_no);
    (generator, seed_no)
}

/// Seeding is reproducible: two results of `rand_random`, both obtained
/// with the same explicit seed, hold bit-identical generator states — so
/// whatever is later drawn from them (a reset's fresh observation included)
/// is identical too.
pub proof fn lemma_rand_random_reproducible(
    a: (rand_pcg::Pcg64, u64),
    b: (rand_pcg::Pcg64, u64),
    k: u64,
)
    requires
        a.0 == pcg64_from_seed(a.1),
        b.0 == pcg64_from_seed(b.1),
        a.1 == k,
        b.1 == k,
    ensures
        a == b,
{
}

} // verus!
