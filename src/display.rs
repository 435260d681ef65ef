use vstd::prelude::*;

verus! {

/// Sequences longer than this are thinned out before they are plotted.
pub const DISPLAY_CAP: usize = 1_000;

/// Whether the point at index `i` of a sequence of `n` points is plotted: all of
/// them up to the cap; beyond it every `n / DISPLAY_CAP`-th one, and the last.
pub open spec fn keeps(i: nat, n: nat) -> bool {
    n <= DISPLAY_CAP || i % (n / DISPLAY_CAP as nat) == 0 || i == n - 1
}

/// The plotted indices below `upto` of a sequence of `n` points, in increasing
/// order.
pub open spec fn kept_indices(n: nat, upto: nat) -> Seq<nat>
    decreases upto,
{
    if upto == 0 {
        Seq::empty()
    } else if keeps((upto - 1) as nat, n) {
        kept_indices(n, (upto - 1) as nat).push((upto - 1) as nat)
    } else {
        kept_indices(n, (upto - 1) as nat)
    }
}

/// The points of `s` that are plotted.
pub open spec fn decimated<T>(s: Seq<T>) -> Seq<T> {
    kept_indices(s.len(), s.len()).map_values(|i: nat| s[i as int])
}

/// Thins a sequence of points out for plotting: a sequence of at most
/// `DISPLAY_CAP` points is returned whole; a longer one of `n` points keeps
/// every `n / DISPLAY_CAP`-th point by index, and the last point once.
pub fn decimate_for_display<T: Copy>(points: &Vec<T>) -> (r: Vec<T>)
    ensures
        r@ == decimated(points@),
        points@.len() <= DISPLAY_CAP ==> r@ == points@,
{
    proof {
        if points@.len() <= DISPLAY_CAP {
            lemma_short_sequence_kept_whole(points@);
        }
    }
    let n: usize = points.len();
    let mut r: Vec<T> = Vec::new();
    let mut i: usize = 0;
    while i < n
        invariant
            n == points@.len(),
            i <= n,
            r@ == kept_indices(n as nat, i as nat).map_values(|j: nat| points@[j as int]),
        decreases n - i,
    {
        let keep: bool = n <= DISPLAY_CAP || i % (n / DISPLAY_CAP) == 0 || i == n - 1;
        assert(keep == keeps(i as nat, n as nat));
        if keep {
            r.push(points[i]);
        }
        assert(r@ =~= kept_indices(n as nat, (i + 1) as nat).map_values(|j: nat| points@[j as int]));
        i = i + 1;
    }
    r
}

/// The kept indices below `upto` are below `upto` and strictly increasing.
pub proof fn lemma_kept_indices_increasing(n: nat, upto: nat)
    ensures
        forall|j: int|
            0 <= j < kept_indices(n, upto).len() ==> #[trigger] kept_indices(n, upto)[j] < upto,
        forall|j: int, k: int|
            0 <= j < k < kept_indices(n, upto).len() ==> #[trigger] kept_indices(n, upto)[j]
                < #[trigger] kept_indices(n, upto)[k],
    decreases upto,
{
    if upto > 0 {
        let prev = kept_indices(n, (upto - 1) as nat);
        lemma_kept_indices_increasing(n, (upto - 1) as nat);
        if keeps((upto - 1) as nat, n) {
            assert(forall|j: int| 0 <= j < prev.len() ==> prev.push((upto - 1) as nat)[j] == prev[j]);
        }
    }
}

/// Thinning keeps the first point and the last point of a sequence of more
/// than `DISPLAY_CAP` points, and the last one exactly once.
pub proof fn lemma_decimation_keeps_endpoints(n: nat)
    requires
        n > DISPLAY_CAP,
    ensures
        kept_indices(n, n).len() >= 2,
        kept_indices(n, n)[0] == 0,
        kept_indices(n, n).last() == n - 1,
        forall|j: int|
            0 <= j < kept_indices(n, n).len() - 1 ==> #[trigger] kept_indices(n, n)[j] != n - 1,
{
    let stride = n / DISPLAY_CAP as nat;
    assert(stride >= 1);
    assert(keeps((n - 1) as nat, n));
    lemma_kept_indices_increasing(n, (n - 1) as nat);
    lemma_kept_indices_increasing(n, n);
    lemma_first_kept(n, (n - 1) as nat);
    assert(kept_indices(n, n) == kept_indices(n, (n - 1) as nat).push((n - 1) as nat));
}

/// Below the cap every index is kept.
proof fn lemma_kept_all(n: nat, upto: nat)
    requires
        n <= DISPLAY_CAP,
    ensures
        kept_indices(n, upto).len() == upto,
        forall|j: int| 0 <= j < upto ==> #[trigger] kept_indices(n, upto)[j] == j,
    decreases upto,
{
    if upto > 0 {
        lemma_kept_all(n, (upto - 1) as nat);
        let prev = kept_indices(n, (upto - 1) as nat);
        assert(forall|j: int| 0 <= j < prev.len() ==> prev.push((upto - 1) as nat)[j] == prev[j]);
    }
}

/// A sequence of at most `DISPLAY_CAP` points is plotted whole.
pub proof fn lemma_short_sequence_kept_whole<T>(s: Seq<T>)
    requires
        s.len() <= DISPLAY_CAP,
    ensures
        decimated(s) == s,
{
    lemma_kept_all(s.len(), s.len());
    assert(decimated(s) =~= s);
}

/// Thinning a sequence of more than `DISPLAY_CAP` points keeps its first and
/// its last point, and they are the first and the last of what is plotted.
pub proof fn lemma_decimated_keeps_end_points<T>(s: Seq<T>)
    requires
        s.len() > DISPLAY_CAP,
    ensures
        decimated(s).len() >= 2,
        decimated(s)[0] == s[0],
        decimated(s).last() == s.last(),
{
    lemma_decimation_keeps_endpoints(s.len());
}

/// Index 0 is the first kept index of any nonempty prefix.
proof fn lemma_first_kept(n: nat, upto: nat)
    requires
        n > DISPLAY_CAP,
        upto > 0,
    ensures
        kept_indices(n, upto).len() >= 1,
        kept_indices(n, upto)[0] == 0,
    decreases upto,
{
    let stride = n / DISPLAY_CAP as nat;
    assert(0nat % stride == 0) by (nonlinear_arith)
        requires
            stride >= 1,
    ;
    assert(keeps(0, n));
    if upto > 1 {
        lemma_first_kept(n, (upto - 1) as nat);
        let prev = kept_indices(n, (upto - 1) as nat);
        if keeps((upto - 1) as nat, n) {
            assert(prev.push((upto - 1) as nat)[0] == prev[0]);
        }
    } else {
        assert(kept_indices(n, 0) == Seq::<nat>::empty());
        assert(kept_indices(n, 1) == Seq::<nat>::empty().push(0));
    }
}

} // verus!
