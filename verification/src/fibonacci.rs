//! Fibonacci numbers.
use vstd::prelude::*;

verus! {

/// The Fibonacci numbers: 0, 1, 1, 2, 3, 5, ...
pub open spec fn fib(n: nat) -> nat
    decreases n,
{
    if n == 0 {
        0
    } else if n == 1 {
        1
    } else {
        fib((n - 1) as nat) + fib((n - 2) as nat)
    }
}

/// The largest index whose Fibonacci number fits in 32 bits.
pub const LAST_INDEX: u32 = 47;

pub proof fn lemma_fib_monotonic(i: nat, j: nat)
    requires
        i <= j,
    ensures
        fib(i) <= fib(j),
    decreases j - i,
{
    if i < j {
        if i + 1 < j {
            lemma_fib_monotonic(i, (j - 1) as nat);
            lemma_fib_monotonic(i, (j - 2) as nat);
        } else if i == 0 {
        } else {
        }
    }
}

/// The Fibonacci number of index 47, the last that fits in 32 bits.
pub proof fn lemma_fib_last()
    ensures
        fib(47) == 2971215073,
{
    assert(fib(0) == 0);
    assert(fib(1) == 1);
    assert(fib(2) == 1);
    assert(fib(3) == 2);
    assert(fib(4) == 3);
    assert(fib(5) == 5);
    assert(fib(6) == 8);
    assert(fib(7) == 13);
    assert(fib(8) == 21);
    assert(fib(9) == 34);
    assert(fib(10) == 55);
    assert(fib(11) == 89);
    assert(fib(12) == 144);
    assert(fib(13) == 233);
    assert(fib(14) == 377);
    assert(fib(15) == 610);
    assert(fib(16) == 987);
    assert(fib(17) == 1597);
    assert(fib(18) == 2584);
    assert(fib(19) == 4181);
    assert(fib(20) == 6765);
    assert(fib(21) == 10946);
    assert(fib(22) == 17711);
    assert(fib(23) == 28657);
    assert(fib(24) == 46368);
    assert(fib(25) == 75025);
    assert(fib(26) == 121393);
    assert(fib(27) == 196418);
    assert(fib(28) == 317811);
    assert(fib(29) == 514229);
    assert(fib(30) == 832040);
    assert(fib(31) == 1346269);
    assert(fib(32) == 2178309);
    assert(fib(33) == 3524578);
    assert(fib(34) == 5702887);
    assert(fib(35) == 9227465);
    assert(fib(36) == 14930352);
    assert(fib(37) == 24157817);
    assert(fib(38) == 39088169);
    assert(fib(39) == 63245986);
    assert(fib(40) == 102334155);
    assert(fib(41) == 165580141);
    assert(fib(42) == 267914296);
    assert(fib(43) == 433494437);
    assert(fib(44) == 701408733);
    assert(fib(45) == 1134903170);
    assert(fib(46) == 1836311903);
    assert(fib(47) == 2971215073);
}

/// Every Fibonacci number up to index 47 fits in 32 bits.
pub proof fn lemma_fib_fits(n: nat)
    requires
        n <= 47,
    ensures
        fib(n) <= u32::MAX,
{
    lemma_fib_last();
    lemma_fib_monotonic(n, 47);
}

/// The Fibonacci number of index `n`, by the defining recursion.
pub fn fibonacci_recursive(n: u32) -> (r: u32)
    requires
        n <= LAST_INDEX,
    ensures
        r == fib(n as nat),
    decreases n,
{
    proof {
        lemma_fib_fits(n as nat);
    }
    if n == 0 {
        0
    } else if n == 1 {
        1
    } else {
        fibonacci_recursive(n - 1) + fibonacci_recursive(n - 2)
    }
}

/// The Fibonacci number of index `n`, by iteration.
pub fn fibonacci_iterative(n: u32) -> (r: u32)
    requires
        n <= LAST_INDEX,
    ensures
        r == fib(n as nat),
{
    if n == 0 {
        return 0;
    }
    let mut a: u32 = 0;
    let mut b: u32 = 1;
    let mut i: u32 = 1;
    while i < n
        invariant
            1 <= i <= n <= LAST_INDEX,
            a == fib((i - 1) as nat),
            b == fib(i as nat),
        decreases n - i,
    {
        proof {
            lemma_fib_fits((i + 1) as nat);
        }
        let temp = b;
        b = a + b;
        a = temp;
        i += 1;
    }
    b
}

/// The first `count` Fibonacci numbers, in order. The number after the one
/// handed out is computed ahead, so `count` stops one short of the last index.
pub fn fibonacci_sequence(count: usize) -> (sequence: Vec<u32>)
    requires
        count < LAST_INDEX,
    ensures
        sequence@.len() == count,
        forall|i: int| 0 <= i < count ==> sequence@[i] == fib(i as nat),
{
    let mut sequence: Vec<u32> = Vec::new();
    let mut curr: u32 = 0;
    let mut next: u32 = 1;
    while sequence.len() < count
        invariant
            sequence@.len() <= count < LAST_INDEX,
            curr == fib(sequence@.len()),
            next == fib(sequence@.len() + 1),
            forall|i: int| 0 <= i < sequence@.len() ==> sequence@[i] == fib(i as nat),
        decreases count - sequence@.len(),
    {
        proof {
            lemma_fib_fits(sequence@.len() + 2);
        }
        let new_next = curr + next;
        sequence.push(curr);
        curr = next;
        next = new_next;
    }
    sequence
}

} // verus!
