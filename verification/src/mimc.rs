//! The MiMC round function over the BN254 scalar field, as a two-to-one
//! compression of field elements.

use vstd::prelude::*;
use vstd::arithmetic::power::pow;
use crate::field::{modulus, FieldElement};
use crate::hash_constants::{round_constant, round_constant_value, MIMC_ROUNDS};

verus! {

/// The exponent of a round.
pub const MIMC_EXPONENT: u64 = 5;

/// One round: add the round constant, then raise to the fifth power.
pub open spec fn mimc_round(x: nat, c: nat) -> nat {
    (pow(((x + c) % modulus()) as int, MIMC_EXPONENT as nat) % (modulus() as int)) as nat
}

/// The state after the first `n` rounds, started at `x`.
pub open spec fn mimc_rounds(x: nat, n: nat) -> nat
    decreases n,
{
    if n == 0 {
        x
    } else {
        mimc_round(mimc_rounds(x, (n - 1) as nat), round_constant_value(n - 1))
    }
}

/// The hash of two field elements, as numbers: all rounds, started at their
/// sum.
pub open spec fn mimc_value(a: nat, b: nat) -> nat {
    mimc_rounds((a + b) % modulus(), MIMC_ROUNDS as nat)
}

/// Hashes two field elements into one: the state starts as their sum and
/// goes through every round.
pub fn mimc_hash_2(a: FieldElement, b: FieldElement) -> (h: FieldElement)
    ensures
        h.value() == mimc_value(a.value(), b.value()),
{
    let mut x = a.plus(&b);
    let ghost start = x.value();
    let mut i: usize = 0;
    while i < MIMC_ROUNDS
        invariant
            i <= MIMC_ROUNDS,
            x.value() == mimc_rounds(start, i as nat),
        decreases MIMC_ROUNDS - i,
    {
        let c = round_constant(i);
        x = x.plus(&c).pow(MIMC_EXPONENT);
        i += 1;
    }
    x
}

} // verus!
