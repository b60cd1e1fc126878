//! Fibonacci numbers, computed iteratively and by naive recursion.
//!
//! Both algorithms are verified against the mathematical sequence
//! `fib`: F(0) = 0, F(1) = 1, F(n) = F(n-1) + F(n-2). The largest index
//! whose value fits in a `u64` is 93; the checked entry points reject
//! anything larger with [`FibError::OutOfRange`].

use vstd::prelude::*;

verus! {

/// The mathematical Fibonacci sequence.
pub open spec fn fib(n: nat) -> nat
    decreases n,
{
    if n == 0 {
        0
    } else if n == 1 {
        1
    } else {
        fib((n - 1) as nat) + fib((n - 2) as nat)
    }
}

/// The recurrence that defines the sequence: each term from the third on
/// is the sum of the two before it.
pub proof fn lemma_fib_recurrence(n: nat)
    requires
        n >= 2,
    ensures
        fib(n) == fib((n - 1) as nat) + fib((n - 2) as nat),
{
}

/// The sequence never decreases: a later term is at least as large as an
/// earlier one.
pub proof fn lemma_fib_monotonic(m: nat, n: nat)
    requires
        m <= n,
    ensures
        fib(m) <= fib(n),
    decreases n,
{
    if m < n && n >= 2 {
        lemma_fib_monotonic(m, (n - 1) as nat);
    }
}

/// The landmark values of the sequence, and the overflow boundary: F(93)
/// is the last term that fits in a `u64`, and F(94) is past `u64::MAX`.
pub proof fn lemma_fib_values()
    ensures
        fib(10) == 55,
        fib(20) == 6765,
        fib(35) == 9227465,
        fib(93) == 12200160415121876738,
        fib(94) > u64::MAX,
{
    assert(fib(0) == 0);
    assert(fib(1) == 1);
    assert(fib(2) == 1);
    assert(fib(3) == 2);
    assert(fib(4) == 3);
    assert(fib(5) == 5);
    assert(fib(6) == 8);
    assert(fib(7) == 13);
    assert(fib(8) == 21);
    assert(fib(9) == 34);
    assert(fib(10) == 55);
    assert(fib(11) == 89);
    assert(fib(12) == 144);
    assert(fib(13) == 233);
    assert(fib(14) == 377);
    assert(fib(15) == 610);
    assert(fib(16) == 987);
    assert(fib(17) == 1597);
    assert(fib(18) == 2584);
    assert(fib(19) == 4181);
    assert(fib(20) == 6765);
    assert(fib(21) == 10946);
    assert(fib(22) == 17711);
    assert(fib(23) == 28657);
    assert(fib(24) == 46368);
    assert(fib(25) == 75025);
    assert(fib(26) == 121393);
    assert(fib(27) == 196418);
    assert(fib(28) == 317811);
    assert(fib(29) == 514229);
    assert(fib(30) == 832040);
    assert(fib(31) == 1346269);
    assert(fib(32) == 2178309);
    assert(fib(33) == 3524578);
    assert(fib(34) == 5702887);
    assert(fib(35) == 9227465);
    assert(fib(36) == 14930352);
    assert(fib(37) == 24157817);
    assert(fib(38) == 39088169);
    assert(fib(39) == 63245986);
    assert(fib(40) == 102334155);
    assert(fib(41) == 165580141);
    assert(fib(42) == 267914296);
    assert(fib(43) == 433494437);
    assert(fib(44) == 701408733);
    assert(fib(45) == 1134903170);
    assert(fib(46) == 1836311903);
    assert(fib(47) == 2971215073);
    assert(fib(48) == 4807526976);
    assert(fib(49) == 7778742049);
    assert(fib(50) == 12586269025);
    assert(fib(51) == 20365011074);
    assert(fib(52) == 32951280099);
    assert(fib(53) == 53316291173);
    assert(fib(54) == 86267571272);
    assert(fib(55) == 139583862445);
    assert(fib(56) == 225851433717);
    assert(fib(57) == 365435296162);
    assert(fib(58) == 591286729879);
    assert(fib(59) == 956722026041);
    assert(fib(60) == 1548008755920);
    assert(fib(61) == 2504730781961);
    assert(fib(62) == 4052739537881);
    assert(fib(63) == 6557470319842);
    assert(fib(64) == 10610209857723);
    assert(fib(65) == 17167680177565);
    assert(fib(66) == 27777890035288);
    assert(fib(67) == 44945570212853);
    assert(fib(68) == 72723460248141);
    assert(fib(69) == 117669030460994);
    assert(fib(70) == 190392490709135);
    assert(fib(71) == 308061521170129);
    assert(fib(72) == 498454011879264);
    assert(fib(73) == 806515533049393);
    assert(fib(74) == 1304969544928657);
    assert(fib(75) == 2111485077978050);
    assert(fib(76) == 3416454622906707);
    assert(fib(77) == 5527939700884757);
    assert(fib(78) == 8944394323791464);
    assert(fib(79) == 14472334024676221);
    assert(fib(80) == 23416728348467685);
    assert(fib(81) == 37889062373143906);
    assert(fib(82) == 61305790721611591);
    assert(fib(83) == 99194853094755497);
    assert(fib(84) == 160500643816367088);
    assert(fib(85) == 259695496911122585);
    assert(fib(86) == 420196140727489673);
    assert(fib(87) == 679891637638612258);
    assert(fib(88) == 1100087778366101931);
    assert(fib(89) == 1779979416004714189);
    assert(fib(90) == 2880067194370816120);
    assert(fib(91) == 4660046610375530309);
    assert(fib(92) == 7540113804746346429);
    assert(fib(93) == 12200160415121876738);
    assert(fib(94) == 19740274219868223167);
}

/// Every term up to F(93) fits in a `u64`.
pub proof fn lemma_fib_fits_u64(n: nat)
    requires
        n <= 93,
    ensures
        fib(n) <= 12200160415121876738,
{
    lemma_fib_monotonic(n, 93);
    lemma_fib_values();
}

/// Calculate the nth Fibonacci number with a forward pass that keeps only
/// the last two terms: O(n) time, O(1) space.
///
/// The index must be at most 93, the largest whose value fits in a `u64`;
/// see [`checked_fibonacci_iterative`] for an entry point that validates
/// the index at run time instead.
#[must_use]
pub fn fibonacci_iterative(n: u32) -> (r: u64)
    requires
        n <= 93,
    ensures
        r == fib(n as nat),
{
    match n {
        0 => 0,
        1 => 1,
        _ => {
            let mut a: u64 = 0;
            let mut b: u64 = 1;
            let mut i: u32 = 2;
            while i <= n
                invariant
                    2 <= i <= n + 1,
                    n <= 93,
                    a == fib((i - 2) as nat),
                    b == fib((i - 1) as nat),
                decreases n + 1 - i,
            {
                proof {
                    lemma_fib_fits_u64(i as nat);
                }
                let next: u64 = a + b;
                a = b;
                b = next;
                i = i + 1;
            }
            b
        }
    }
}

/// Calculate the nth Fibonacci number by re-expressing the recurrence as
/// two recursive calls, without caching: exponential time, kept as a
/// baseline to compare the iterative pass against.
///
/// The index must be at most 93, the largest whose value fits in a `u64`;
/// see [`checked_fibonacci_recursive`] for an entry point that validates
/// the index at run time instead.
#[must_use]
pub fn fibonacci_recursive(n: u32) -> (r: u64)
    requires
        n <= 93,
    ensures
        r == fib(n as nat),
    decreases n,
{
    match n {
        0 => 0,
        1 => 1,
        _ => {
            let x: u64 = fibonacci_recursive(n - 1);
            let y: u64 = fibonacci_recursive(n - 2);
            proof {
                lemma_fib_fits_u64(n as nat);
            }
            x + y
        }
    }
}

/// The one way a request can fail: the index names a term past the
/// overflow boundary, so its value would not fit in a `u64`.
#[derive(Clone, Copy, Debug, PartialEq, Eq, Structural)]
pub enum FibError {
    OutOfRange,
}

/// [`fibonacci_iterative`] behind an explicit range check: indices past
/// the overflow boundary are rejected with [`FibError::OutOfRange`]
/// instead of being ruled out by the caller.
pub fn checked_fibonacci_iterative(n: u32) -> (r: Result<u64, FibError>)
    ensures
        n <= 93 ==> (r matches Ok(v) && v == fib(n as nat)),
        n > 93 ==> (r matches Err(e) && e == FibError::OutOfRange),
{
    if n <= 93 {
        Ok(fibonacci_iterative(n))
    } else {
        Err(FibError::OutOfRange)
    }
}

/// [`fibonacci_recursive`] behind an explicit range check: indices past
/// the overflow boundary are rejected with [`FibError::OutOfRange`]
/// instead of being ruled out by the caller.
pub fn checked_fibonacci_recursive(n: u32) -> (r: Result<u64, FibError>)
    ensures
        n <= 93 ==> (r matches Ok(v) && v == fib(n as nat)),
        n > 93 ==> (r matches Err(e) && e == FibError::OutOfRange),
{
    if n <= 93 {
        Ok(fibonacci_recursive(n))
    } else {
        Err(FibError::OutOfRange)
    }
}

/// Backwards-compatible alias, bound to the iterative implementation.
#[must_use]
pub fn fibonacci(n: u32) -> (r: u64)
    requires
        n <= 93,
    ensures
        r == fib(n as nat),
{
    fibonacci_iterative(n)
}

/// The two algorithms agree: any results meeting the contracts of
/// [`fibonacci_iterative`] and [`fibonacci_recursive`] on the same index
/// are equal, bit for bit.
pub proof fn lemma_algorithms_agree(n: u32, r_iter: u64, r_rec: u64)
    requires
        n <= 93,
        r_iter == fib(n as nat),
        r_rec == fib(n as nat),
    ensures
        r_iter == r_rec,
{
}

/// The functions are pure: the contracts pin the result to `fib(n)` alone,
/// so repeated calls with the same index return the same value.
pub proof fn lemma_deterministic(n: u32, r_first: u64, r_second: u64)
    requires
        n <= 93,
        r_first == fib(n as nat),
        r_second == fib(n as nat),
    ensures
        r_first == r_second,
{
}

} // verus!
