//! A 256-bit unsigned integer held as four 64-bit limbs, least significant
//! first, and viewed as a natural number below `2^256`.
//!
//! Arithmetic and comparison on words are done by stylus-sdk's `U256`, which
//! is ruint's `Uint<256, 4>`; the limbs convert one for one.

use stylus_sdk::alloy_primitives::U256;
use vstd::arithmetic::div_mod::lemma_small_mod;
use vstd::arithmetic::power::pow;
use vstd::prelude::*;

verus! {

/// `2^64`, the weight of one limb.
pub open spec fn limb_base() -> nat {
    0x1_0000_0000_0000_0000
}

/// `2^256`: every word is below it, and wrapping arithmetic is taken modulo it.
pub open spec fn word_modulus() -> nat {
    0x1_0000_0000_0000_0000_0000_0000_0000_0000 * 0x1_0000_0000_0000_0000_0000_0000_0000_0000
}

/// A 256-bit unsigned integer.
#[derive(Clone, Copy, Debug, PartialEq, Eq)]
pub struct Uint256 {
    /// Limbs, least significant first.
    pub limbs: [u64; 4],
}

impl View for Uint256 {
    type V = nat;

    open spec fn view(&self) -> nat {
        self.limbs[0] as nat + limb_base() * (self.limbs[1] as nat + limb_base() * (
        self.limbs[2] as nat + limb_base() * self.limbs[3] as nat))
    }
}

/// Every word is below `2^256`.
pub proof fn lemma_word_below_modulus(w: Uint256)
    ensures
        w@ < word_modulus(),
{
    let b = limb_base() as int;
    let l0 = w.limbs[0] as int;
    let l1 = w.limbs[1] as int;
    let l2 = w.limbs[2] as int;
    let l3 = w.limbs[3] as int;
    let t2 = l2 + b * l3;
    let t1 = l1 + b * t2;
    assert(t2 < b * b) by (nonlinear_arith)
        requires
            0 <= l2 < b,
            0 <= l3 < b,
            t2 == l2 + b * l3,
    ;
    assert(t1 < b * b * b) by (nonlinear_arith)
        requires
            0 <= l1 < b,
            0 <= t2 < b * b,
            t1 == l1 + b * t2,
    ;
    assert(l0 + b * t1 < b * b * b * b) by (nonlinear_arith)
        requires
            0 <= l0 < b,
            0 <= t1 < b * b * b,
    ;
}

/// Wrapping leaves alone a value that is already below `2^256`.
pub proof fn lemma_wrap_small(x: nat)
    requires
        x < word_modulus(),
    ensures
        x % word_modulus() == x,
{
    lemma_small_mod(x, word_modulus());
}

impl Uint256 {
    /// Builds a word from its limbs, least significant first.
    pub fn from_limbs(limbs: [u64; 4]) -> (r: Uint256)
        ensures
            r.limbs == limbs,
    {
        Uint256 { limbs }
    }

    /// The word's limbs, least significant first.
    pub fn to_limbs(&self) -> (r: [u64; 4])
        ensures
            r == self.limbs,
    {
        self.limbs
    }

    /// The word equal to `x`.
    pub fn from_u64(x: u64) -> (r: Uint256)
        ensures
            r@ == x as nat,
    {
        Uint256 { limbs: [x, 0, 0, 0] }
    }

    /// Zero.
    pub fn zero() -> (r: Uint256)
        ensures
            r@ == 0,
    {
        Uint256 { limbs: [0, 0, 0, 0] }
    }
}

/// Relies on ruint's `Uint::wrapping_add`: the sum modulo `2^256`.
#[verifier::external_body]
pub(crate) fn wrapping_add(a: Uint256, b: Uint256) -> (r: Uint256)
    ensures
        r@ == (a@ + b@) % word_modulus(),
{
    let x = U256::from_limbs(a.limbs).wrapping_add(U256::from_limbs(b.limbs));
    Uint256 { limbs: x.into_limbs() }
}

/// Relies on ruint's `Uint::wrapping_sub`: the difference, which does not wrap
/// when `b` is at most `a`.
#[verifier::external_body]
pub(crate) fn wrapping_sub(a: Uint256, b: Uint256) -> (r: Uint256)
    requires
        b@ <= a@,
    ensures
        r@ == a@ - b@,
{
    let x = U256::from_limbs(a.limbs).wrapping_sub(U256::from_limbs(b.limbs));
    Uint256 { limbs: x.into_limbs() }
}

/// Relies on ruint's `Uint::wrapping_mul`: the product modulo `2^256`.
#[verifier::external_body]
pub(crate) fn wrapping_mul(a: Uint256, b: Uint256) -> (r: Uint256)
    ensures
        r@ == (a@ * b@) % word_modulus(),
{
    let x = U256::from_limbs(a.limbs).wrapping_mul(U256::from_limbs(b.limbs));
    Uint256 { limbs: x.into_limbs() }
}

/// Relies on ruint's `Uint::wrapping_pow`: `a` to the power `e` modulo `2^256`
/// (with `0^0 == 1`).
#[verifier::external_body]
pub(crate) fn wrapping_pow(a: Uint256, e: Uint256) -> (r: Uint256)
    ensures
        r@ == pow(a@ as int, e@) % (word_modulus() as int),
{
    let x = U256::from_limbs(a.limbs).wrapping_pow(U256::from_limbs(e.limbs));
    Uint256 { limbs: x.into_limbs() }
}

/// Relies on ruint's `Uint::wrapping_div`: floor division, which panics on a
/// zero divisor.
#[verifier::external_body]
pub(crate) fn wrapping_div(a: Uint256, b: Uint256) -> (r: Uint256)
    requires
        b@ > 0,
    ensures
        r@ == a@ / b@,
{
    let x = U256::from_limbs(a.limbs).wrapping_div(U256::from_limbs(b.limbs));
    Uint256 { limbs: x.into_limbs() }
}

/// Relies on ruint's `Uint::wrapping_rem`: the remainder, which panics on a
/// zero divisor.
#[verifier::external_body]
pub(crate) fn wrapping_rem(a: Uint256, b: Uint256) -> (r: Uint256)
    requires
        b@ > 0,
    ensures
        r@ == a@ % b@,
{
    let x = U256::from_limbs(a.limbs).wrapping_rem(U256::from_limbs(b.limbs));
    Uint256 { limbs: x.into_limbs() }
}

/// Relies on ruint's `PartialOrd::lt` for `Uint`: numeric order.
#[verifier::external_body]
pub(crate) fn less_than(a: Uint256, b: Uint256) -> (r: bool)
    ensures
        r == (a@ < b@),
{
    U256::from_limbs(a.limbs) < U256::from_limbs(b.limbs)
}

/// Relies on ruint's `Uint::is_zero`.
#[verifier::external_body]
pub(crate) fn is_zero(a: Uint256) -> (r: bool)
    ensures
        r == (a@ == 0),
{
    U256::from_limbs(a.limbs).is_zero()
}

/// Relies on ruint's `Uint::bit`: bit 0 is set exactly when the word is odd.
#[verifier::external_body]
pub(crate) fn low_bit(a: Uint256) -> (r: bool)
    ensures
        r == (a@ % 2 == 1),
{
    U256::from_limbs(a.limbs).bit(0)
}

} // verus!
