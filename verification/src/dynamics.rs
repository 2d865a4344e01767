//! The orbit dynamics of the Mandelbrot iteration: the step map `phi`, its
//! iterates, its derivative, the multiplier of a candidate cycle, and the
//! escape-time and period classifiers built from them.

use vstd::prelude::*;

use num::complex::Complex64;

use crate::complex::add_of;
use crate::complex::complex_add;
use crate::complex::complex_from_ints;
use crate::complex::complex_mul;
use crate::complex::complex_of_ints;
use crate::complex::mul_of;
use crate::complex::norm_ge_one;
use crate::complex::norm_sqr_exceeds_four;
use crate::complex::norm_sqr_gt_four;
use crate::complex::norm_at_least_one;

verus! {

/// How many refinement steps the period probe makes, and the exclusive upper
/// bound of the period search. Sufficient for renders on the order of
/// 2048x2048 pixels.
pub const MAX_PERIOD: usize = 40;

/// How far the orbit is advanced into its attractor before the period
/// search begins. Chosen empirically; deeper renders may need more.
pub const ORBIT_DEPTH: usize = 1000;

/// One iteration step: `phi(z, c) = z*z + c`.
pub open spec fn phi_of(z: Complex64, c: Complex64) -> Complex64 {
    add_of(mul_of(z, z), c)
}

/// The `n`-fold iterate of `phi` starting from `z`, holding `c` fixed.
pub open spec fn phi_iter(z: Complex64, c: Complex64, n: nat) -> Complex64
    decreases n,
{
    if n == 0 {
        z
    } else {
        phi_of(phi_iter(z, c, (n - 1) as nat), c)
    }
}

/// The derivative of the step map with respect to `z`: `phi'(z) = 2*z`,
/// computed as the sum `z + z`, which doubles each component exactly.
pub open spec fn phi_prime_of(z: Complex64) -> Complex64 {
    add_of(z, z)
}

/// The multiplier of an assumed period-`n` cycle seeded at `z`: the product
/// `phi'(z) * phi'(phi(z)) * ... * phi'(phi_{n-1}(z))` along the orbit,
/// folded from the left. For `n <= 1` the product is the single factor
/// `phi'(z)`.
pub open spec fn lambda_of(z: Complex64, c: Complex64, n: nat) -> Complex64
    decreases n,
{
    if n <= 1 {
        phi_prime_of(z)
    } else {
        mul_of(lambda_of(z, c, (n - 1) as nat), phi_prime_of(phi_iter(z, c, (n - 1) as nat)))
    }
}

/// One iteration step of the Mandelbrot formula, `z*z + c`.
pub fn phi(z: Complex64, c: Complex64) -> (r: Complex64)
    ensures
        r == phi_of(z, c),
{
    complex_add(complex_mul(z, z), c)
}

/// Applies `phi` to `z` a total of `n` times, holding `c` fixed.
pub fn phi_n(z: Complex64, c: Complex64, n: usize) -> (r: Complex64)
    ensures
        r == phi_iter(z, c, n as nat),
{
    let mut result = z;
    let mut i: usize = 0;
    while i < n
        invariant
            i <= n,
            result == phi_iter(z, c, i as nat),
        decreases n - i,
    {
        result = phi(result, c);
        i = i + 1;
    }
    result
}

/// The derivative of the Mandelbrot formula at `z`, `2*z`.
pub fn phi_prime(z: Complex64) -> (r: Complex64)
    ensures
        r == phi_prime_of(z),
{
    complex_add(z, z)
}

/// The multiplier of an assumed period-`n` cycle through `z`.
pub fn lambda(z: Complex64, c: Complex64, n: usize) -> (r: Complex64)
    ensures
        r == lambda_of(z, c, n as nat),
{
    let mut result = phi_prime(z);
    let mut iter: usize = 1;
    while iter < n
        invariant
            1 <= iter,
            n > 1 ==> iter <= n,
            n <= 1 ==> iter == 1,
            result == lambda_of(z, c, iter as nat),
        decreases n - iter,
    {
        result = complex_mul(result, phi_prime(phi_n(z, c, iter)));
        iter = iter + 1;
    }
    result
}

/// The orbit of the origin under `c`: the `i`-th iterate of `phi` from zero.
pub open spec fn orbit(c: Complex64, i: nat) -> Complex64 {
    phi_iter(complex_of_ints(0, 0), c, i)
}

/// Whether the orbit of the origin under `c` has left the radius-two disk
/// after exactly `i` iterations.
pub open spec fn escapes_at(c: Complex64, i: nat) -> bool {
    norm_sqr_gt_four(orbit(c, i))
}

/// The least `i < limit` at which the orbit of the origin under `c` is found
/// outside the radius-two disk, if any.
pub open spec fn first_escape(c: Complex64, limit: nat) -> Option<nat>
    decreases limit,
{
    if limit == 0 {
        None
    } else {
        match first_escape(c, (limit - 1) as nat) {
            Some(i) => Some(i),
            None => if escapes_at(c, (limit - 1) as nat) {
                Some((limit - 1) as nat)
            } else {
                None
            },
        }
    }
}

/// `first_escape` finds nothing below `limit` exactly when no iterate below
/// `limit` lies outside the disk.
pub proof fn lemma_first_escape_none(c: Complex64, limit: nat)
    ensures
        first_escape(c, limit) is None <==> (forall|j: nat| j < limit ==> !escapes_at(c, j)),
    decreases limit,
{
    if limit > 0 {
        lemma_first_escape_none(c, (limit - 1) as nat);
    }
}

/// If the orbit first leaves the disk at step `i`, then `first_escape`
/// reports `i` for every bound above `i`.
pub proof fn lemma_first_escape_found(c: Complex64, i: nat, limit: nat)
    requires
        i < limit,
        escapes_at(c, i),
        forall|j: nat| j < i ==> !escapes_at(c, j),
    ensures
        first_escape(c, limit) == Some(i),
    decreases limit,
{
    if i + 1 < limit {
        lemma_first_escape_found(c, i, (limit - 1) as nat);
    } else {
        lemma_first_escape_none(c, i);
    }
}

/// Decides whether `c` lies outside the Mandelbrot set, using at most
/// `limit` iterations. Returns the number of iterations after which the
/// orbit of the origin was first found outside the radius-two disk, or
/// `None` if that did not happen within the budget — the classical
/// bounded-iteration heuristic for candidate members.
pub fn escape_time(c: Complex64, limit: usize) -> (r: Option<usize>)
    ensures
        r matches Some(i) ==> i < limit && escapes_at(c, i as nat) && (forall|j: nat|
            j < i ==> !escapes_at(c, j)),
        r is None ==> (forall|i: nat| i < limit ==> !escapes_at(c, i)),
        r matches Some(i) ==> first_escape(c, limit as nat) == Some(i as nat),
        r is None ==> first_escape(c, limit as nat) is None,
{
    let mut z = complex_from_ints(0, 0);
    let mut i: usize = 0;
    while i < limit
        invariant
            i <= limit,
            z == orbit(c, i as nat),
            forall|j: nat| j < i ==> !escapes_at(c, j),
        decreases limit - i,
    {
        if norm_sqr_exceeds_four(z) {
            proof {
                lemma_first_escape_found(c, i as nat, limit as nat);
            }
            return Some(i);
        }
        z = phi(z, c);
        i = i + 1;
    }
    proof {
        lemma_first_escape_none(c, limit as nat);
    }
    None
}

/// One refinement step of the stability probe passes: seeded at the
/// `k`-th iterate of `z`, the period-`n` multiplier lies strictly inside the
/// unit circle.
pub open spec fn probe_stable(z: Complex64, c: Complex64, n: nat, k: nat) -> bool {
    !norm_ge_one(lambda_of(phi_iter(z, c, k), c, n))
}

/// The whole stability probe accepts: across all `MAX_PERIOD` refinements of
/// the seed, the period-`n` multiplier estimate stays strictly inside the
/// unit circle.
pub open spec fn periodic_probe(z: Complex64, c: Complex64, n: nat) -> bool {
    forall|k: nat| k < MAX_PERIOD ==> probe_stable(z, c, n, k)
}

/// Probes whether the orbit through `z` is converging to an attracting
/// cycle of period `n`: a heuristic multiplier-stability test, not a proof
/// of periodicity.
pub fn is_period_p(z: Complex64, c: Complex64, n: usize) -> (r: bool)
    ensures
        r == periodic_probe(z, c, n as nat),
{
    let mut result = z;
    let mut iter: usize = 0;
    while iter < MAX_PERIOD
        invariant
            iter <= MAX_PERIOD,
            result == phi_iter(z, c, iter as nat),
            forall|k: nat| k < iter ==> probe_stable(z, c, n as nat, k),
        decreases MAX_PERIOD - iter,
    {
        let m = lambda(result, c, n);
        if norm_at_least_one(m) {
            assert(!probe_stable(z, c, n as nat, iter as nat));
            return false;
        }
        result = phi(result, c);
        iter = iter + 1;
    }
    true
}

/// The least `p` in `[start, MAX_PERIOD)` accepted by the stability probe
/// seeded at `zn`, or zero if the probe rejects every candidate in range.
pub open spec fn period_search(zn: Complex64, c: Complex64, start: nat) -> nat
    decreases MAX_PERIOD - start,
{
    if start >= MAX_PERIOD {
        0
    } else if periodic_probe(zn, c, start) {
        start
    } else {
        period_search(zn, c, start + 1)
    }
}

/// The period estimate for `z` under `c`: advance the orbit `ORBIT_DEPTH`
/// steps into its attractor, then search for the least accepted period.
pub open spec fn period_of(z: Complex64, c: Complex64) -> nat {
    period_search(phi_iter(z, c, ORBIT_DEPTH as nat), c, 1)
}

/// Estimates the period of the attracting cycle that the orbit of `z` under
/// `c` converges to. Returns the first `p` in `[1, MAX_PERIOD)` accepted by
/// the stability probe, after advancing the orbit `ORBIT_DEPTH` steps; zero
/// means no low-order period could be confirmed — a legitimate terminal
/// classification, not an error.
pub fn calculate_period(z: Complex64, c: Complex64) -> (r: usize)
    ensures
        r < MAX_PERIOD,
        r == period_of(z, c),
        r != 0 ==> periodic_probe(phi_iter(z, c, ORBIT_DEPTH as nat), c, r as nat)
            && (forall|q: nat|
            1 <= q < r ==> !periodic_probe(phi_iter(z, c, ORBIT_DEPTH as nat), c, q)),
        r == 0 ==> (forall|p: nat|
            1 <= p < MAX_PERIOD ==> !periodic_probe(phi_iter(z, c, ORBIT_DEPTH as nat), c, p)),
{
    let zn = phi_n(z, c, ORBIT_DEPTH);
    let mut p: usize = 1;
    while p < MAX_PERIOD
        invariant
            1 <= p <= MAX_PERIOD,
            zn == phi_iter(z, c, ORBIT_DEPTH as nat),
            forall|q: nat| 1 <= q < p ==> !periodic_probe(zn, c, q),
            period_search(zn, c, 1) == period_search(zn, c, p as nat),
        decreases MAX_PERIOD - p,
    {
        if is_period_p(zn, c, p) {
            return p;
        }
        p = p + 1;
    }
    0
}

/// The composition law of the iterates: iterating `m + n` times is iterating
/// `m` times and then `n` more times. In particular one application of the
/// iterate equals one application of `phi`, and the `n+1`-st iterate is
/// `phi` applied to the `n`-th.
pub proof fn lemma_phi_iter_compose(z: Complex64, c: Complex64, m: nat, n: nat)
    ensures
        phi_iter(z, c, m + n) == phi_iter(phi_iter(z, c, m), c, n),
    decreases n,
{
    if n > 0 {
        lemma_phi_iter_compose(z, c, m, (n - 1) as nat);
    }
}

} // verus!
