use vstd::prelude::*;

verus! {

/// `n!`.
pub open spec fn fact(n: nat) -> nat
    decreases n,
{
    if n == 0 {
        1
    } else {
        n * fact((n - 1) as nat)
    }
}

/// The largest `n` whose factorial fits in a `u64`.
pub const MAX_FACTORIAL_ARG: u64 = 20;

/// Relies on `factorial::Factorial::checked_factorial` for `u64`: `n!` when it
/// fits, which it does for every `n` up to 20 (read from the crate's table).
#[verifier::external_body]
fn checked_factorial(n: u64) -> (r: Option<u64>)
    requires
        n <= MAX_FACTORIAL_ARG,
    ensures
        r == Some(fact(n as nat) as u64),
{
    <u64 as factorial::Factorial>::checked_factorial(&n)
}

/// `fact` grows with its argument, and `20!` fits in a `u64`.
proof fn lemma_fact_bounds(n: nat)
    requires
        n <= 20,
    ensures
        1 <= fact(n) <= fact(20),
        fact(20) <= u64::MAX,
    decreases 20 - n,
{
    assert(fact(0) == 1);
    assert(fact(1) == 1);
    assert(fact(2) == 2);
    assert(fact(3) == 6);
    assert(fact(4) == 24);
    assert(fact(5) == 120);
    assert(fact(6) == 720);
    assert(fact(7) == 5040);
    assert(fact(8) == 40320);
    assert(fact(9) == 362880);
    assert(fact(10) == 3628800);
    assert(fact(11) == 39916800);
    assert(fact(12) == 479001600);
    assert(fact(13) == 6227020800);
    assert(fact(14) == 87178291200);
    assert(fact(15) == 1307674368000);
    assert(fact(16) == 20922789888000);
    assert(fact(17) == 355687428096000);
    assert(fact(18) == 6402373705728000);
    assert(fact(19) == 121645100408832000);
    assert(fact(20) == 2432902008176640000);
    if n < 20 {
        lemma_fact_bounds(n + 1);
        assert(fact(n + 1) == (n + 1) * fact(n));
        assert(fact(n) <= fact(n + 1)) by (nonlinear_arith)
            requires
                fact(n + 1) == (n + 1) * fact(n),
                fact(n) >= 1,
        ;
    }
}

/// The divisors of the terms of a Taylor expansion with `n_terms` terms: the
/// term of order `j` is `h^j * y^(j) / j!`, so entry `j` is `j!`.
pub fn taylor_denominators(n_terms: usize) -> (r: Vec<u64>)
    requires
        n_terms <= MAX_FACTORIAL_ARG + 1,
    ensures
        r@.len() == n_terms,
        forall|j: int| 0 <= j < n_terms ==> r@[j] as nat == fact(j as nat),
{
    let mut r: Vec<u64> = Vec::new();
    let mut j: usize = 0;
    while j < n_terms
        invariant
            n_terms <= MAX_FACTORIAL_ARG + 1,
            j <= n_terms,
            r@.len() == j,
            forall|k: int| 0 <= k < j ==> r@[k] as nat == fact(k as nat),
        decreases n_terms - j,
    {
        proof {
            lemma_fact_bounds(j as nat);
        }
        let f: u64 = checked_factorial(j as u64).unwrap();
        r.push(f);
        j = j + 1;
    }
    r
}

/// Why a grid of points cannot be laid over an interval.
#[derive(PartialEq, Eq, Structural, Debug, Clone, Copy)]
pub enum SamplingError {
    /// A grid needs at least two points, so that the spacing
    /// `(end - start) / (count - 1)` is defined.
    TooFewPoints(usize),
}

/// The number of steps between `count` evenly spaced points, the divisor of
/// the spacing; an error when there are fewer than two points.
pub fn interval_count(count: usize) -> (r: Result<usize, SamplingError>)
    ensures
        count >= 2 ==> r == Ok::<usize, SamplingError>((count - 1) as usize),
        count < 2 ==> r == Err::<usize, SamplingError>(SamplingError::TooFewPoints(count)),
{
    if count < 2 {
        Err(SamplingError::TooFewPoints(count))
    } else {
        Ok(count - 1)
    }
}

} // verus!
