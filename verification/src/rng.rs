//! The random source: the generator of the `rand` crate that the playspace
//! draws from. Nothing in this file is proved; each item states what `rand`
//! documents of the function it calls.
//!
//! A generator is deterministic: what it holds fixes every value that it will
//! deliver. The names below stand for that dependence and say nothing of the
//! values themselves. A generator seeded by the operating system holds a state
//! of which nothing is known.

use vstd::prelude::*;
use rand::rngs::{OsRng, StdRng};
use rand::seq::SliceRandom;
use rand::{Rng, SeedableRng};

verus! {

/// `rand`'s standard generator, carried through as an opaque value.
#[verifier::external_type_specification]
#[verifier::external_body]
pub struct ExStdRng(rand::rngs::StdRng);

/// The error with which a random source of `rand` fails, carried through as
/// an opaque value.
#[verifier::external_type_specification]
#[verifier::external_body]
pub struct ExRandError(rand::Error);

/// What a generator holds: the bytes of its state.
pub uninterp spec fn held(rng: StdRng) -> Seq<u8>;

/// The state of the generator that `StdRng::seed_from_u64` makes of a seed.
pub uninterp spec fn seeded_state(seed: u64) -> Seq<u8>;

/// What `Rng::gen_range` makes of a state and the range `low..high` of `u64`:
/// the value that it returns and the state that it leaves.
pub uninterp spec fn range_draw(state: Seq<u8>, low: u64, high: u64) -> (u64, Seq<u8>);

/// What `SliceRandom::choose` makes of a state and a slice of `len` elements:
/// the index of the element that it returns and the state that it leaves.
pub uninterp spec fn slice_choice(state: Seq<u8>, len: nat) -> (nat, Seq<u8>);

/// `StdRng::seed_from_u64`: a generator whose state, and with it its stream,
/// is fixed by `seed`.
#[verifier::external_body]
pub(crate) fn seeded(seed: u64) -> (rng: StdRng)
    ensures
        held(rng) == seeded_state(seed),
{
    StdRng::seed_from_u64(seed)
}

/// `StdRng::from_rng` on `OsRng`: a generator seeded from the operating
/// system, or the error with which the operating system refused. Nothing is
/// claimed of which of the two comes back, nor of what the generator holds.
#[verifier::external_body]
pub(crate) fn seeded_by_system() -> Result<StdRng, rand::Error> {
    StdRng::from_rng(OsRng)
}

/// `Rng::gen_range` on the half-open range `low..high` of `u64`, which panics
/// when the range is empty: the value drawn lies in the range, and it and the
/// state left behind depend on nothing but the state before and the range.
#[verifier::external_body]
pub(crate) fn draw(rng: &mut StdRng, low: usize, high: usize) -> (drawn: usize)
    requires
        low < high,
    ensures
        low <= drawn < high,
        (drawn as u64, held(*final(rng))) == range_draw(held(*old(rng)), low as u64, high as u64),
{
    rng.gen_range(low as u64..high as u64) as usize
}

/// `SliceRandom::choose`: `None` for an empty slice, which leaves the
/// generator as it was; else one of the slice's elements, whose index and the
/// state left behind depend on nothing but the state before and the slice's
/// length.
#[verifier::external_body]
pub(crate) fn pick(rng: &mut StdRng, positions: &Vec<(usize, usize)>) -> (picked: Option<
    (usize, usize),
>)
    ensures
        positions@.len() == 0 ==> picked is None && held(*final(rng)) == held(*old(rng)),
        positions@.len() > 0 ==> picked == Some(
            positions@[slice_choice(held(*old(rng)), positions@.len()).0 as int],
        ) && slice_choice(held(*old(rng)), positions@.len()).0 < positions@.len(),
        positions@.len() > 0 ==> held(*final(rng)) == slice_choice(
            held(*old(rng)),
            positions@.len(),
        ).1,
{
    positions.choose(rng).copied()
}

} // verus!
