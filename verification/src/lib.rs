use vstd::prelude::*;

verus! {

use vstd::arithmetic::div_mod::{lemma_add_mod_noop, lemma_mod_multiples_vanish, lemma_small_mod};

/// The nth Fibonacci number, 0-indexed: term 0 is 0, term 1 is 1, and every
/// later term is the sum of the two before it.
pub open spec fn spec_fib(n: nat) -> nat
    decreases n,
{
    if n == 0 {
        0
    } else if n == 1 {
        1
    } else {
        spec_fib((n - 2) as nat) + spec_fib((n - 1) as nat)
    }
}

/// Bounds `value` to the closed range `[min, max]`, with no assumption that
/// `min <= max`. The lower bound is tested first, so when the bounds cross,
/// `min` wins. A value equal to `max` is already in range, yet the upper
/// comparison deliberately uses `>=` rather than `>`, which is the behaviour
/// this library keeps: at the exact boundary the two operators agree, so the
/// result is the same either way.
pub fn clamp(value: i32, min: i32, max: i32) -> (r: i32)
    ensures
        value < min ==> r == min,
        min <= value && value < max ==> r == value,
        min <= value && value >= max ==> r == max,
{
    if value < min {
        min
    } else if value >= max {
        max
    } else {
        value
    }
}

/// The nth Fibonacci number as a 64-bit unsigned integer. For large `n` the
/// true term no longer fits in 64 bits and the result silently wraps: it is
/// always the true term reduced modulo 2^64, and so equals the true term
/// whenever that term fits.
pub fn fibonacci(n: u32) -> (r: u64)
    ensures
        r as nat == spec_fib(n as nat) % 0x1_0000_0000_0000_0000,
        spec_fib(n as nat) <= u64::MAX ==> r as nat == spec_fib(n as nat),
{
    if n == 0 {
        return 0;
    }
    if n == 1 {
        return 1;
    }
    let mut a: u64 = 0;
    let mut b: u64 = 1;
    let mut i: u32 = 1;
    while i < n
        invariant
            1 <= i,
            i <= n,
            a as nat == spec_fib((i - 1) as nat) % 0x1_0000_0000_0000_0000,
            b as nat == spec_fib(i as nat) % 0x1_0000_0000_0000_0000,
        decreases n - i,
    {
        let next = a.wrapping_add(b);
        proof {
            let m: int = 0x1_0000_0000_0000_0000;
            let x: int = spec_fib((i - 1) as nat) as int;
            let y: int = spec_fib(i as nat) as int;
            lemma_add_mod_noop(x, y, m);
            if a + b > u64::MAX {
                lemma_mod_multiples_vanish(1, a + b - m, m);
                lemma_small_mod((a + b - m) as nat, m as nat);
            } else {
                lemma_small_mod((a + b) as nat, m as nat);
            }
        }
        a = b;
        b = next;
        i = i + 1;
    }
    proof {
        if spec_fib(n as nat) <= u64::MAX {
            lemma_small_mod(spec_fib(n as nat), 0x1_0000_0000_0000_0000 as nat);
        }
    }
    b
}

/// `clamp` is pure: its contract determines the result from the arguments
/// alone. Any two results that satisfy the contract for the same inputs are
/// equal, so repeated calls on identical inputs yield identical outputs.
pub proof fn lemma_clamp_pure(value: int, min: int, max: int, r1: int, r2: int)
    requires
        value < min ==> r1 == min,
        min <= value && value < max ==> r1 == value,
        min <= value && value >= max ==> r1 == max,
        value < min ==> r2 == min,
        min <= value && value < max ==> r2 == value,
        min <= value && value >= max ==> r2 == max,
    ensures
        r1 == r2,
{
}

/// `fibonacci` is pure: its contract determines the result from the argument
/// alone. Any two results that satisfy the contract for the same input are
/// equal, so repeated calls on identical inputs yield identical outputs.
pub proof fn lemma_fibonacci_pure(n: nat, r1: nat, r2: nat)
    requires
        r1 == spec_fib(n) % 0x1_0000_0000_0000_0000,
        r2 == spec_fib(n) % 0x1_0000_0000_0000_0000,
    ensures
        r1 == r2,
{
}

} // verus!
