use vstd::prelude::*;

verus! {

/// Where index `i` of a sequence with `m + 1` points falls on a shorter one with
/// `n + 1` points over the same interval: between `lower` and `upper`, at
/// `rem / m` of a step past `lower`.
#[derive(PartialEq, Eq, Structural, Debug, Clone, Copy)]
pub struct Bracket {
    pub lower: usize,
    pub upper: usize,
    pub rem: usize,
}

/// The bracket of index `i` when `m` steps of the longer sequence span `n`
/// steps of the shorter one.
pub open spec fn bracket_of(i: nat, m: nat, n: nat) -> Bracket
    recommends
        m > 0,
{
    let lower = (i * n) / m;
    let rem = (i * n) % m;
    Bracket {
        lower: lower as usize,
        upper: (if rem > 0 { lower + 1 } else { lower }) as usize,
        rem: rem as usize,
    }
}

/// The two points of the shorter sequence that index `i` of the longer one is
/// interpolated between; both are valid indices of the shorter sequence.
pub fn interpolation_bracket(i: usize, m: usize, n: usize) -> (r: Bracket)
    requires
        m > 0,
        i <= m,
        i * n <= usize::MAX,
    ensures
        r == bracket_of(i as nat, m as nat, n as nat),
        r.lower <= r.upper <= n,
        r.rem < m,
{
    let p: usize = i * n;
    let lower: usize = p / m;
    let rem: usize = p % m;
    proof {
        assert(p <= m * n) by (nonlinear_arith)
            requires
                p == i * n,
                i <= m,
        ;
        assert(lower * m + rem == p) by (nonlinear_arith)
            requires
                lower == p / m,
                rem == p % m,
                m > 0,
        ;
        assert(lower <= n) by (nonlinear_arith)
            requires
                lower * m + rem == p,
                p <= m * n,
                rem >= 0,
                m > 0,
        ;
        if rem > 0 {
            assert(lower < n) by (nonlinear_arith)
                requires
                    lower * m + rem == p,
                    p <= m * n,
                    rem > 0,
                    m > 0,
            ;
        }
    }
    let upper: usize = if rem > 0 {
        lower + 1
    } else {
        lower
    };
    Bracket { lower, upper, rem }
}

} // verus!
