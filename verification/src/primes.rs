//! Prime numbers by trial division.
use vstd::prelude::*;

verus! {

/// `n` is prime: at least 2 and divisible by no number between 2 and `n - 1`.
pub open spec fn prime(n: nat) -> bool {
    n >= 2 && forall|d: nat| 2 <= d < n ==> #[trigger] (n % d) != 0
}

/// The primes in `from..to`, in ascending order.
pub open spec fn primes_between(from: nat, to: nat) -> Seq<u32>
    decreases to,
{
    if to <= from {
        Seq::empty()
    } else if prime((to - 1) as nat) {
        primes_between(from, (to - 1) as nat).push((to - 1) as u32)
    } else {
        primes_between(from, (to - 1) as nat)
    }
}

/// A divisor `d >= 2` of `n` comes with the divisor `n / d`, and one of the
/// two is at most the square root of `n`.
proof fn lemma_small_divisor(n: nat, d: nat, i: nat)
    requires
        2 <= d < n,
        n % d == 0,
        i <= d,
        i * i > n,
    ensures
        2 <= n / d < i,
        n % (n / d) == 0,
{
    let q = n / d;
    vstd::arithmetic::div_mod::lemma_fundamental_div_mod(n as int, d as int);
    assert(n == d * q);
    assert(q >= 2) by (nonlinear_arith)
        requires
            n == d * q,
            d < n,
            d >= 2,
    {}
    assert(q < i) by (nonlinear_arith)
        requires
            n == d * q,
            i <= d,
            i * i > n,
            q >= 0,
    {}
    assert(n == q * d) by (nonlinear_arith)
        requires
            n == d * q,
    {}
    vstd::arithmetic::div_mod::lemma_mod_multiples_basic(d as int, q as int);
}

pub fn is_prime(n: u32) -> (r: bool)
    ensures
        r == prime(n as nat),
{
    if n < 2 {
        return false;
    }
    let mut i: u64 = 2;
    while i * i <= n as u64
        invariant
            2 <= i <= 0x1_0000,
            i * i <= 0x1_0000_0000,
            n >= 2,
            forall|d: nat| 2 <= d < i ==> #[trigger] ((n as nat) % d) != 0,
        decreases 0x1_0000 - i,
    {
        if n as u64 % i == 0 {
            assert(i < n) by (nonlinear_arith)
                requires
                    i * i <= n,
                    i >= 2,
            {}
            assert((n as nat) % (i as nat) == 0);
            return false;
        }
        assert(i < 0x1_0000 && (i + 1) * (i + 1) <= 0x1_0000_0000) by (nonlinear_arith)
            requires
                i * i <= n,
                n <= 0xffff_ffff,
                i <= 0x1_0000,
        {}
        i += 1;
    }
    assert forall|d: nat| 2 <= d < n implies #[trigger] ((n as nat) % d) != 0 by {
        if d >= i && (n as nat) % d == 0 {
            lemma_small_divisor(n as nat, d, i as nat);
            assert((n as nat) % ((n as nat) / d) == 0);
        }
    }
    true
}

/// The primes in `range`, in ascending order.
pub fn primes_in_range(range: std::ops::Range<u32>) -> (primes: Vec<u32>)
    ensures
        primes@ == primes_between(range.start as nat, range.end as nat),
{
    let mut primes: Vec<u32> = Vec::new();
    let mut i: u32 = range.start;
    while i < range.end
        invariant
            range.start <= i,
            i <= range.end || i == range.start,
            primes@ == primes_between(range.start as nat, i as nat),
        decreases range.end - i,
    {
        if is_prime(i) {
            primes.push(i);
        }
        i += 1;
    }
    primes
}

/// One more than the largest 32-bit number.
pub open spec fn limit() -> nat {
    0x1_0000_0000
}

/// The first `n` primes, in ascending order; should fewer than `n` primes fit
/// in 32 bits, all of those.
pub fn n_primes(n: u32) -> (primes: Vec<u32>)
    ensures
        primes@.len() <= n,
        exists|bound: nat|
            bound <= limit() && #[trigger] primes_between(2, bound) == primes@ && (primes@.len()
                == n || bound == limit()) && (primes@.len() == n && n > 0 ==> primes@.last()
                == bound - 1),
{
    let mut primes: Vec<u32> = Vec::new();
    let mut i: u64 = 2;
    while primes.len() < n as usize && i <= 0xffff_ffff
        invariant
            2 <= i <= limit(),
            primes@.len() <= n,
            primes@ == primes_between(2, i as nat),
            primes@.len() > 0 && primes@.len() == n ==> primes@.last() == i - 1,
        decreases limit() - i,
    {
        if is_prime(i as u32) {
            primes.push(i as u32);
        }
        i += 1;
    }
    assert(primes_between(2, i as nat) == primes@);
    primes
}

/// The first `count` primes, as `n_primes` gives them.
pub fn primes_sequence(count: u32) -> (primes: Vec<u32>)
    ensures
        primes@.len() <= count,
        exists|bound: nat|
            bound <= limit() && #[trigger] primes_between(2, bound) == primes@ && (primes@.len()
                == count || bound == limit()) && (primes@.len() == count && count > 0
                ==> primes@.last() == bound - 1),
{
    n_primes(count)
}

} // verus!
