//! The counter's state and its guarded transitions.
//!
//! The state is a single 256-bit word. Operations that could leave the
//! meaningful domain (below zero, division by zero) are skipped when their
//! guard fails; `add`, `multiply`, `square` and `power` wrap modulo `2^256`.

use crate::word::{
    is_zero, less_than, low_bit, word_modulus, wrapping_add, wrapping_div, wrapping_mul,
    wrapping_pow, wrapping_rem, wrapping_sub, Uint256,
};
use vstd::arithmetic::div_mod::lemma_add_mod_noop;
use vstd::arithmetic::power::pow;
use vstd::prelude::*;

verus! {

/// What the host hands to a call besides its arguments.
#[derive(Clone, Copy, Debug)]
pub struct CallContext {
    /// The contract's own address.
    pub contract_address: [u8; 20],
    /// The amount transferred with the call.
    pub value: Uint256,
}

/// The event that announces a contract's opt-in to caching.
#[derive(Clone, Copy, Debug)]
pub struct AutoCacheOptIn {
    /// The address of the contract that opts in.
    pub contract_addr: [u8; 20],
}

/// The counter: one persisted 256-bit value, zero when deployed.
#[derive(Clone, Copy, Debug)]
pub struct MyCacheableContract {
    counter: Uint256,
}

impl View for MyCacheableContract {
    type V = nat;

    closed spec fn view(&self) -> nat {
        self.counter@
    }
}

/// What `read` returns on a counter holding `v`.
pub open spec fn read_model(v: nat) -> nat {
    v
}

/// The value after `set(n)` on a counter holding `v`.
pub open spec fn set_model(v: nat, n: nat) -> nat {
    n
}

/// `swap(n)` on a counter holding `v`: the new value, then what is returned.
pub open spec fn swap_model(v: nat, n: nat) -> (nat, nat) {
    (n, v)
}

/// Whether `v` is even.
pub open spec fn is_even_model(v: nat) -> bool {
    v % 2 == 0
}

/// Whether `v` is odd.
pub open spec fn is_odd_model(v: nat) -> bool {
    v % 2 == 1
}

/// One round of the mixing function: `x * 123456789 + 987654321` modulo `2^64`.
pub open spec fn mix_step(x: u64) -> u64 {
    ((x as nat * 123456789 + 987654321) % 0x1_0000_0000_0000_0000) as u64
}

/// `k` rounds of the mixing function applied to `x`.
pub open spec fn mix_rounds(x: u64, k: nat) -> u64
    decreases k,
{
    if k == 0 {
        x
    } else {
        mix_step(mix_rounds(x, (k - 1) as nat))
    }
}

/// Reading right after `set(n)` gives `n`, whatever the counter held.
pub proof fn lemma_read_after_set(v: nat, n: nat)
    ensures
        read_model(set_model(v, n)) == n,
{
}

/// Swapping in `a`, then `b`, then the value that the first swap returned
/// brings the counter back to where it started.
pub proof fn lemma_swap_restores(v: nat, a: nat, b: nat)
    ensures
        ({
            let (v1, r1) = swap_model(v, a);
            let (v2, r2) = swap_model(v1, b);
            let (v3, r3) = swap_model(v2, r1);
            r1 == v && r2 == a && r3 == b && v3 == v
        }),
{
}

/// Every value is exactly one of even and odd.
pub proof fn lemma_parity_complementary(v: nat)
    ensures
        is_even_model(v) != is_odd_model(v),
{
}

impl MyCacheableContract {
    /// A freshly deployed counter.
    pub fn new() -> (r: MyCacheableContract)
        ensures
            r@ == 0,
    {
        MyCacheableContract { counter: Uint256::zero() }
    }

    /// A counter holding `v`, as loaded from storage.
    pub fn from_value(v: Uint256) -> (r: MyCacheableContract)
        ensures
            r@ == v@,
    {
        MyCacheableContract { counter: v }
    }

    /// The current value.
    pub fn read(&self) -> (r: Uint256)
        ensures
            r@ == read_model(self@),
    {
        self.counter
    }

    /// Replaces the value with `n`.
    pub fn set(&mut self, n: Uint256)
        ensures
            final(self)@ == set_model(old(self)@, n@),
    {
        self.counter = n;
    }

    /// Adds `n`, wrapping modulo `2^256`.
    pub fn add(&mut self, n: Uint256)
        ensures
            final(self)@ == (old(self)@ + n@) % word_modulus(),
    {
        self.counter = wrapping_add(self.counter, n);
    }

    /// Multiplies by `n`, wrapping modulo `2^256`.
    pub fn multiply(&mut self, n: Uint256)
        ensures
            final(self)@ == (old(self)@ * n@) % word_modulus(),
    {
        self.counter = wrapping_mul(self.counter, n);
    }

    /// Adds one, wrapping modulo `2^256`.
    pub fn increment(&mut self)
        ensures
            final(self)@ == (old(self)@ + 1) % word_modulus(),
    {
        self.counter = wrapping_add(self.counter, Uint256::from_u64(1));
    }

    /// Subtracts one unless the value is zero.
    pub fn decrement(&mut self)
        ensures
            old(self)@ > 0 ==> final(self)@ == old(self)@ - 1,
            old(self)@ == 0 ==> final(self)@ == old(self)@,
    {
        if !is_zero(self.counter) {
            self.counter = wrapping_sub(self.counter, Uint256::from_u64(1));
        }
    }

    /// Subtracts `n` unless it exceeds the value.
    pub fn subtract(&mut self, n: Uint256)
        ensures
            n@ <= old(self)@ ==> final(self)@ == old(self)@ - n@,
            n@ > old(self)@ ==> final(self)@ == old(self)@,
    {
        if !less_than(self.counter, n) {
            self.counter = wrapping_sub(self.counter, n);
        }
    }

    /// Divides by `n`, rounding down, unless `n` is zero.
    pub fn divide(&mut self, n: Uint256)
        ensures
            n@ > 0 ==> final(self)@ == old(self)@ / n@,
            n@ == 0 ==> final(self)@ == old(self)@,
    {
        if !is_zero(n) {
            self.counter = wrapping_div(self.counter, n);
        }
    }

    /// The value modulo `n`, or zero when `n` is zero.
    pub fn modulo(&self, n: Uint256) -> (r: Uint256)
        ensures
            n@ > 0 ==> r@ == self@ % n@,
            n@ == 0 ==> r@ == 0,
    {
        if is_zero(n) {
            Uint256::zero()
        } else {
            wrapping_rem(self.counter, n)
        }
    }

    /// Squares the value, wrapping modulo `2^256`.
    pub fn square(&mut self)
        ensures
            final(self)@ == (old(self)@ * old(self)@) % word_modulus(),
    {
        self.counter = wrapping_mul(self.counter, self.counter);
    }

    /// Raises the value to the power `n`, wrapping modulo `2^256`.
    pub fn power(&mut self, n: Uint256)
        ensures
            final(self)@ == pow(old(self)@ as int, n@) % (word_modulus() as int),
    {
        self.counter = wrapping_pow(self.counter, n);
    }

    /// Sets the value to zero.
    pub fn reset(&mut self)
        ensures
            final(self)@ == 0,
    {
        self.counter = Uint256::zero();
    }

    /// Replaces the value with `n` when `n` is larger.
    pub fn set_maximum(&mut self, n: Uint256)
        ensures
            n@ > old(self)@ ==> final(self)@ == n@,
            n@ <= old(self)@ ==> final(self)@ == old(self)@,
    {
        if less_than(self.counter, n) {
            self.counter = n;
        }
    }

    /// Replaces the value with `n` when `n` is smaller.
    pub fn set_minimum(&mut self, n: Uint256)
        ensures
            n@ < old(self)@ ==> final(self)@ == n@,
            n@ >= old(self)@ ==> final(self)@ == old(self)@,
    {
        if less_than(n, self.counter) {
            self.counter = n;
        }
    }

    /// Replaces the value with `n` and returns the value it held.
    pub fn swap(&mut self, n: Uint256) -> (r: Uint256)
        ensures
            (final(self)@, r@) == swap_model(old(self)@, n@),
    {
        let previous = self.counter;
        self.counter = n;
        previous
    }

    /// Adds `n`, wrapping modulo `2^256`, as `add` does.
    pub fn increment_by(&mut self, n: Uint256)
        ensures
            final(self)@ == (old(self)@ + n@) % word_modulus(),
    {
        self.add(n);
    }

    /// Adds the amount transferred with the call, wrapping modulo `2^256`.
    pub fn add_from_external_credit(&mut self, ctx: &CallContext)
        ensures
            final(self)@ == (old(self)@ + ctx.value@) % word_modulus(),
    {
        self.add(ctx.value);
    }

    /// Twice the value, modulo `2^256`; the counter is left as it is.
    pub fn double(&self) -> (r: Uint256)
        ensures
            r@ == (self@ * 2) % word_modulus(),
    {
        wrapping_mul(self.counter, Uint256::from_u64(2))
    }

    /// Three times the value, modulo `2^256`; the counter is left as it is.
    pub fn triple(&self) -> (r: Uint256)
        ensures
            r@ == (self@ * 3) % word_modulus(),
    {
        wrapping_mul(self.counter, Uint256::from_u64(3))
    }

    /// Whether the value is even.
    pub fn is_even(&self) -> (r: bool)
        ensures
            r == is_even_model(self@),
    {
        !low_bit(self.counter)
    }

    /// Whether the value is odd.
    pub fn is_odd(&self) -> (r: bool)
        ensures
            r == is_odd_model(self@),
    {
        low_bit(self.counter)
    }

    /// Whether the value is zero.
    pub fn is_zero(&self) -> (r: bool)
        ensures
            r == (self@ == 0),
    {
        is_zero(self.counter)
    }

    /// Adds one, wrapping modulo `2^256`, and returns the new value.
    pub fn increment_counter(&mut self) -> (r: Uint256)
        ensures
            final(self)@ == (old(self)@ + 1) % word_modulus(),
            r@ == final(self)@,
    {
        let new_value = wrapping_add(self.counter, Uint256::from_u64(1));
        self.counter = new_value;
        new_value
    }

    /// The event that announces this contract's opt-in to caching; the host
    /// emits it.
    pub fn opt_in_to_cache(&self, ctx: &CallContext) -> (r: AutoCacheOptIn)
        ensures
            r.contract_addr == ctx.contract_address,
    {
        AutoCacheOptIn { contract_addr: ctx.contract_address }
    }

    /// Five thousand rounds of the mixing function on `input`: deliberate
    /// work whose result does not depend on the counter.
    pub fn expensive_logic(&self, input: u64) -> (r: u64)
        ensures
            r == mix_rounds(input, 5000),
    {
        let mut result: u64 = input;
        let mut i: u32 = 0;
        while i < 5000
            invariant
                i <= 5000,
                result == mix_rounds(input, i as nat),
            decreases 5000 - i,
        {
            let product = result.wrapping_mul(123456789);
            proof {
                lemma_add_mod_noop(
                    (result as nat * 123456789) as int,
                    987654321,
                    0x1_0000_0000_0000_0000,
                );
            }
            result = product.wrapping_add(987654321);
            i = i + 1;
        }
        result
    }

    /// Answers a liveness probe with `"pong"`.
    pub fn ping(&self) -> (r: String)
        ensures
            r@ == "pong"@,
    {
        String::from_str("pong")
    }

    /// The cacheability signal: always `true`.
    pub fn is_cacheable(&self) -> (r: bool)
        ensures
            r,
    {
        true
    }
}

} // verus!
