//! Laws that relate the transformations to one another.
use vstd::prelude::*;

use crate::error::Error;
use crate::interpolation::weighted_sum;
use crate::mesh::{cell_height, cell_in_domain, cell_width, spec_cell, MeshUnit};
use crate::point::{Parameter, Point};
use crate::transformer::{
    backward_from, below, close, corners_present, interpolated, spec_backward, spec_backward_safe,
    spec_forward, CONVERGENCE_TOLERANCE, MAX_ITERATIONS, VERIFICATION_EPSILON,
};

verus! {

/// A grid whose every parameter is zero leaves every point of its covered
/// area where it is.
pub proof fn lemma_zero_grid_is_identity(grid: Map<u32, Parameter>, unit: MeshUnit, p: Point)
    requires
        forall|k: u32| #[trigger]
            grid.contains_key(k) ==> grid[k] == (Parameter { latitude: 0, longitude: 0, altitude: 0 }),
        cell_in_domain(p.latitude as int, p.longitude as int, unit),
        corners_present(grid, spec_cell(p.latitude as int, p.longitude as int, unit)),
    ensures
        spec_forward(grid, unit, p) == Ok::<Point, Error>(p),
{
    let c = spec_cell(p.latitude as int, p.longitude as int, unit);
    let w = cell_width(unit);
    let h = cell_height(unit);
    assert(w * h > 0) by (nonlinear_arith)
        requires
            w == unit.spec_step() * 45_000_000_000,
            h == unit.spec_step() * 30_000_000_000,
            unit.spec_step() >= 1,
    ;
    assert(weighted_sum(0, 0, 0, 0, c.x as int, c.y as int, w, h) == 0);
    vstd::arithmetic::div_mod::lemma_fundamental_div_mod_converse(w * h, 2 * (w * h), 0, w * h);
    assert(interpolated(grid, c, unit, 0) == 0);
    assert(interpolated(grid, c, unit, 1) == 0);
    assert(interpolated(grid, c, unit, 2) == 0);
}

/// A point whose cell lies in the domain but lacks a parameter at one of its
/// nodes fails with `ParameterNotFound`: no missing node counts as zero.
pub proof fn lemma_missing_corner_is_reported(grid: Map<u32, Parameter>, unit: MeshUnit, p: Point)
    requires
        cell_in_domain(p.latitude as int, p.longitude as int, unit),
        !corners_present(grid, spec_cell(p.latitude as int, p.longitude as int, unit)),
    ensures
        spec_forward(grid, unit, p) == Err::<Point, Error>(Error::ParameterNotFound),
{
}

proof fn lemma_backward_from_never_fails_verification(
    grid: Map<u32, Parameter>,
    unit: MeshUnit,
    target: Point,
    cand: Point,
    fuel: nat,
)
    ensures
        backward_from(grid, unit, target, cand, fuel) != Err::<Point, Error>(
            Error::VerificationFailed,
        ),
    decreases fuel,
{
    if fuel > 0 {
        match spec_forward(grid, unit, cand) {
            Err(e) => {},
            Ok(f) => {
                let lat = cand.latitude + (target.latitude - f.latitude);
                let lon = cand.longitude + (target.longitude - f.longitude);
                let alt = cand.altitude + (target.altitude - f.altitude);
                let next = Point {
                    latitude: lat as i64,
                    longitude: lon as i64,
                    altitude: alt as i64,
                };
                lemma_backward_from_never_fails_verification(
                    grid,
                    unit,
                    target,
                    next,
                    (fuel - 1) as nat,
                );
            },
        }
    }
}

/// The verified backward transformation returns only points whose forward
/// image lies within `VERIFICATION_EPSILON` of the input, and it reports
/// `VerificationFailed` only where the plain backward transformation
/// succeeded.
pub proof fn lemma_backward_safe_is_verified(grid: Map<u32, Parameter>, unit: MeshUnit, p: Point)
    ensures
        spec_backward_safe(grid, unit, p) is Ok ==> {
            let q = spec_backward_safe(grid, unit, p)->Ok_0;
            &&& spec_forward(grid, unit, q) is Ok
            &&& close(spec_forward(grid, unit, q)->Ok_0, p, VERIFICATION_EPSILON as int)
        },
        spec_backward_safe(grid, unit, p) == Err::<Point, Error>(Error::VerificationFailed)
            ==> spec_backward(grid, unit, p) is Ok,
{
    lemma_backward_from_never_fails_verification(grid, unit, p, p, MAX_ITERATIONS as nat);
}

proof fn lemma_backward_from_converged(
    grid: Map<u32, Parameter>,
    unit: MeshUnit,
    target: Point,
    cand: Point,
    fuel: nat,
)
    requires
        backward_from(grid, unit, target, cand, fuel) is Ok,
    ensures
        exists|c: Point|
            {
                &&& #[trigger] spec_forward(grid, unit, c) is Ok
                &&& below(target, spec_forward(grid, unit, c)->Ok_0, CONVERGENCE_TOLERANCE as int)
                &&& below(
                    backward_from(grid, unit, target, cand, fuel)->Ok_0,
                    c,
                    CONVERGENCE_TOLERANCE as int,
                )
            },
    decreases fuel,
{
    let f = spec_forward(grid, unit, cand)->Ok_0;
    let lat = cand.latitude + (target.latitude - f.latitude);
    let lon = cand.longitude + (target.longitude - f.longitude);
    let alt = cand.altitude + (target.altitude - f.altitude);
    let next = Point { latitude: lat as i64, longitude: lon as i64, altitude: alt as i64 };
    if below(target, f, CONVERGENCE_TOLERANCE as int) {
        assert(spec_forward(grid, unit, cand) is Ok);
    } else {
        lemma_backward_from_converged(grid, unit, target, next, (fuel - 1) as nat);
    }
}

/// When the backward transformation succeeds, its result differs by less
/// than `CONVERGENCE_TOLERANCE` from a point whose forward image differs by
/// less than `CONVERGENCE_TOLERANCE` from the input.
pub proof fn lemma_backward_is_near_a_preimage(grid: Map<u32, Parameter>, unit: MeshUnit, p: Point)
    requires
        spec_backward(grid, unit, p) is Ok,
    ensures
        exists|c: Point|
            {
                &&& #[trigger] spec_forward(grid, unit, c) is Ok
                &&& below(p, spec_forward(grid, unit, c)->Ok_0, CONVERGENCE_TOLERANCE as int)
                &&& below(spec_backward(grid, unit, p)->Ok_0, c, CONVERGENCE_TOLERANCE as int)
            },
{
    lemma_backward_from_converged(grid, unit, p, p, MAX_ITERATIONS as nat);
}

/// Backward undoes forward exactly where the correction at the image of a
/// point is the correction at the point itself.
pub proof fn lemma_backward_undoes_forward(grid: Map<u32, Parameter>, unit: MeshUnit, p: Point)
    requires
        spec_forward(grid, unit, p) is Ok,
        spec_forward(grid, unit, spec_forward(grid, unit, p)->Ok_0) is Ok,
        ({
            let q = spec_forward(grid, unit, p)->Ok_0;
            let f = spec_forward(grid, unit, q)->Ok_0;
            &&& f.latitude - q.latitude == q.latitude - p.latitude
            &&& f.longitude - q.longitude == q.longitude - p.longitude
            &&& f.altitude - q.altitude == q.altitude - p.altitude
        }),
    ensures
        spec_backward(grid, unit, spec_forward(grid, unit, p)->Ok_0) == Ok::<Point, Error>(p),
{
    let q = spec_forward(grid, unit, p)->Ok_0;
    reveal_with_fuel(backward_from, 2);
    assert(backward_from(grid, unit, q, p, 9) == Ok::<Point, Error>(p));
}

} // verus!
