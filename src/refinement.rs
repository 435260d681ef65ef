use vstd::prelude::*;
use crate::catalog::DropdownOptions;

verus! {

/// Division count of the first pass of every search.
pub const INITIAL_DIVISIONS: usize = 3;

/// Once a pass has used at least this many divisions the search stops, whatever
/// error it reached.
pub const DIVISION_CEILING: usize = 50_000;

/// The inputs that determine a run: the starting point `(x0, y0)` and the target
/// error, each as the bit pattern of its `f64`, and the selected problem.
/// Two runs with equal parameters compute the same result.
#[derive(PartialEq, Eq, Structural, Debug, Clone, Copy)]
pub struct RunParameters {
    pub x0_bits: u64,
    pub y0_bits: u64,
    pub problem: DropdownOptions,
    pub target_bits: u64,
}

/// Decision state of the refinement loop: the parameters of the last run
/// started, and the division count of the current (or final) pass.
#[derive(PartialEq, Eq, Structural, Debug, Clone, Copy)]
pub struct Refinement {
    pub last_args: RunParameters,
    pub n_divisions: usize,
}

/// Whether a pass at `n` divisions ends the search, given whether its error was
/// below the target.
pub open spec fn stops(n: nat, converged: bool) -> bool {
    converged || n >= DIVISION_CEILING
}

/// The division count of the first pass that ends the search when it starts at
/// `n` and a pass at `m` divisions meets the target exactly when `converged(m)`.
pub open spec fn search_from(converged: spec_fn(nat) -> bool, n: nat) -> nat
    decreases 2 * DIVISION_CEILING - n,
{
    if n == 0 || stops(n, converged(n)) {
        n
    } else {
        search_from(converged, 2 * n)
    }
}

/// The division count at which a whole search ends.
pub open spec fn terminal_divisions(converged: spec_fn(nat) -> bool) -> nat {
    search_from(converged, INITIAL_DIVISIONS as nat)
}

/// The state and the answer of `begin`.
pub open spec fn begun(s: Refinement, params: RunParameters) -> (Refinement, bool) {
    if s.last_args == params {
        (s, false)
    } else {
        (Refinement { last_args: params, n_divisions: INITIAL_DIVISIONS }, true)
    }
}

impl Refinement {
    pub open spec fn wf(&self) -> bool {
        INITIAL_DIVISIONS <= self.n_divisions < 2 * DIVISION_CEILING
    }

    /// A state that has run nothing yet; its remembered parameters are all zero
    /// with the first problem, so that any other parameters start a search.
    pub fn new() -> (r: Refinement)
        ensures
            r.wf(),
            r.n_divisions == INITIAL_DIVISIONS,
            r.last_args == (RunParameters {
                x0_bits: 0,
                y0_bits: 0,
                problem: DropdownOptions::First,
                target_bits: 0,
            }),
    {
        Refinement {
            last_args: RunParameters {
                x0_bits: 0,
                y0_bits: 0,
                problem: DropdownOptions::First,
                target_bits: 0,
            },
            n_divisions: INITIAL_DIVISIONS,
        }
    }

    /// Starts a search for `params` unless they equal those of the last run.
    /// Returns whether a search started; its first pass uses `n_divisions`.
    /// When it returns false nothing has changed, and the results of the last
    /// run stand.
    pub fn begin(&mut self, params: RunParameters) -> (r: bool)
        requires
            old(self).wf(),
        ensures
            final(self).wf(),
            (*final(self), r) == begun(*old(self), params),
    {
        if self.last_args == params {
            false
        } else {
            self.last_args = params;
            self.n_divisions = INITIAL_DIVISIONS;
            true
        }
    }

    /// Records the outcome of the pass at `n_divisions`: `converged` tells
    /// whether its error was below the target. Returns whether another pass is
    /// needed; if so, the division count has doubled.
    pub fn advance(&mut self, converged: bool) -> (r: bool)
        requires
            old(self).wf(),
        ensures
            final(self).wf(),
            final(self).last_args == old(self).last_args,
            r == !stops(old(self).n_divisions as nat, converged),
            r ==> final(self).n_divisions == 2 * old(self).n_divisions,
            !r ==> final(self).n_divisions == old(self).n_divisions,
            forall|c: spec_fn(nat) -> bool|
                c(old(self).n_divisions as nat) == converged ==> #[trigger] search_from(
                    c,
                    old(self).n_divisions as nat,
                ) == if r {
                    search_from(c, final(self).n_divisions as nat)
                } else {
                    final(self).n_divisions as nat
                },
    {
        let ghost n = self.n_divisions as nat;
        let r = if converged || self.n_divisions >= DIVISION_CEILING {
            false
        } else {
            self.n_divisions = self.n_divisions * 2;
            true
        };
        assert forall|c: spec_fn(nat) -> bool| c(n) == converged implies #[trigger] search_from(c, n)
            == if r {
            search_from(c, self.n_divisions as nat)
        } else {
            self.n_divisions as nat
        } by {
            reveal_with_fuel(search_from, 1);
        }
        r
    }
}

/// A search ends no earlier than where it starts.
pub proof fn lemma_search_at_least_start(converged: spec_fn(nat) -> bool, n: nat)
    ensures
        search_from(converged, n) >= n,
    decreases 2 * DIVISION_CEILING - n,
{
    if !(n == 0 || stops(n, converged(n))) {
        lemma_search_at_least_start(converged, 2 * n);
    }
}

/// Searching from `n` under a stricter convergence test never ends at a smaller
/// division count.
pub proof fn lemma_search_monotone(
    strict: spec_fn(nat) -> bool,
    loose: spec_fn(nat) -> bool,
    n: nat,
)
    requires
        forall|m: nat| #[trigger] strict(m) ==> loose(m),
    ensures
        search_from(loose, n) <= search_from(strict, n),
    decreases 2 * DIVISION_CEILING - n,
{
    lemma_search_at_least_start(strict, n);
    if !(n == 0 || stops(n, loose(n))) {
        lemma_search_monotone(strict, loose, 2 * n);
    }
}

/// A smaller target error never ends the search with fewer divisions: every
/// pass that meets the smaller target also meets the larger one, so the search
/// for the larger target stops at the same pass or an earlier one.
pub proof fn lemma_tighter_target_needs_no_fewer_divisions(
    strict: spec_fn(nat) -> bool,
    loose: spec_fn(nat) -> bool,
)
    requires
        forall|m: nat| #[trigger] strict(m) ==> loose(m),
    ensures
        terminal_divisions(loose) <= terminal_divisions(strict),
{
    lemma_search_monotone(strict, loose, INITIAL_DIVISIONS as nat);
}

/// Every search ends, below twice the ceiling, at a pass that met its target or
/// reached the ceiling.
pub proof fn lemma_search_ends_within_bounds(converged: spec_fn(nat) -> bool, n: nat)
    requires
        INITIAL_DIVISIONS <= n < 2 * DIVISION_CEILING,
    ensures
        n <= search_from(converged, n) < 2 * DIVISION_CEILING,
        stops(search_from(converged, n), converged(search_from(converged, n))),
    decreases 2 * DIVISION_CEILING - n,
{
    if !stops(n, converged(n)) {
        lemma_search_ends_within_bounds(converged, 2 * n);
    }
}

/// Once a run for `params` has started, no later pass of it changes the
/// remembered parameters, so starting again with the same parameters changes
/// nothing: neither the state nor the results computed for it.
pub proof fn lemma_unchanged_parameters_no_op(
    s: Refinement,
    params: RunParameters,
    later: Refinement,
)
    requires
        later.last_args == begun(s, params).0.last_args,
    ensures
        begun(later, params) == (later, false),
{
}

} // verus!
