//! Forward, backward and verified backward transformation of points.
use std::collections::HashMap;

use vstd::prelude::*;

use crate::error::Error;
use crate::format::Format;
use crate::interpolation::{interpolate, interpolate_value, nearest, weighted_sum};
use crate::mesh::{
    cell_corners, cell_height, cell_in_domain, cell_width, spec_cell, LAT_STEP, LON_STEP,
    MeshCell, MeshUnit,
};
use crate::point::{Parameter, Point};

verus! {

/// Whether an integer is held in `i64`.
pub open spec fn fits_i64(v: int) -> bool {
    i64::MIN <= v <= i64::MAX
}

/// Whether a grid holds a parameter for each of the four nodes of a cell.
pub open spec fn corners_present(grid: Map<u32, Parameter>, c: MeshCell) -> bool {
    &&& grid.contains_key(c.south_west)
    &&& grid.contains_key(c.south_east)
    &&& grid.contains_key(c.north_west)
    &&& grid.contains_key(c.north_east)
}

/// One component of a parameter: latitude (0), longitude (1) or altitude (2).
pub open spec fn component(p: Parameter, k: int) -> int {
    if k == 0 {
        p.latitude as int
    } else if k == 1 {
        p.longitude as int
    } else {
        p.altitude as int
    }
}

/// Component `k` of the parameters of a cell's nodes, weighted bilinearly at
/// the cell's offset; divided by the cell's area it is the exact
/// interpolated shift in parameter units.
pub open spec fn weighted(grid: Map<u32, Parameter>, c: MeshCell, unit: MeshUnit, k: int) -> int {
    weighted_sum(
        component(grid[c.south_west], k),
        component(grid[c.south_east], k),
        component(grid[c.north_west], k),
        component(grid[c.north_east], k),
        c.x as int,
        c.y as int,
        cell_width(unit),
        cell_height(unit),
    )
}

/// Component `k` of the parameters of a cell's nodes, interpolated at the
/// cell's offset, in point units, rounded to the nearest unit.
pub open spec fn interpolated(
    grid: Map<u32, Parameter>,
    c: MeshCell,
    unit: MeshUnit,
    k: int,
) -> int {
    interpolate(
        component(grid[c.south_west], k),
        component(grid[c.south_east], k),
        component(grid[c.north_west], k),
        component(grid[c.north_east], k),
        c.x as int,
        c.y as int,
        cell_width(unit),
        cell_height(unit),
    )
}

/// The forward transformation of a point over a grid of `unit`: the point
/// moved by the correction interpolated in its cell. Latitude and longitude
/// corrections are published in arcseconds and points are counted in
/// arcseconds too, so no conversion to degrees is needed.
pub open spec fn spec_forward(grid: Map<u32, Parameter>, unit: MeshUnit, p: Point) -> Result<
    Point,
    Error,
> {
    if !cell_in_domain(p.latitude as int, p.longitude as int, unit) {
        Err(Error::OutOfRange)
    } else {
        let c = spec_cell(p.latitude as int, p.longitude as int, unit);
        if !corners_present(grid, c) {
            Err(Error::ParameterNotFound)
        } else {
            let lat = p.latitude + interpolated(grid, c, unit, 0);
            let lon = p.longitude + interpolated(grid, c, unit, 1);
            let alt = p.altitude + interpolated(grid, c, unit, 2);
            if !fits_i64(alt) {
                Err(Error::OutOfRange)
            } else {
                Ok(Point { latitude: lat as i64, longitude: lon as i64, altitude: alt as i64 })
            }
        }
    }
}

/// Iterations the backward transformation may take.
pub const MAX_ITERATIONS: u32 = 10;

/// The backward iteration stops once its step drops below this in every
/// component, that is once each step is at most one unit (1e-9 arcsecond or
/// 1e-9 metre), the size of the rounding in `forward`.
pub const CONVERGENCE_TOLERANCE: i64 = 2;

/// Largest residual, in each component, that the verified backward
/// transformation accepts when its result is mapped forward again: one unit
/// (1e-9 arcsecond or 1e-9 metre), the size of the rounding in `forward`.
pub const VERIFICATION_EPSILON: i64 = 1;

/// Whether `a` and `b` differ by less than `tol` in every component.
pub open spec fn below(a: Point, b: Point, tol: int) -> bool {
    &&& -tol < a.latitude - b.latitude < tol
    &&& -tol < a.longitude - b.longitude < tol
    &&& -tol < a.altitude - b.altitude < tol
}

/// Whether `a` and `b` differ by at most `eps` in every component.
pub open spec fn close(a: Point, b: Point, eps: int) -> bool {
    &&& -eps <= a.latitude - b.latitude <= eps
    &&& -eps <= a.longitude - b.longitude <= eps
    &&& -eps <= a.altitude - b.altitude <= eps
}

/// The backward iteration from candidate `cand` towards `target`, with
/// `fuel` steps left. Each step maps the candidate forward and moves it by
/// the difference between the target and that image; the moved candidate is
/// the result once the difference drops below the tolerance.
pub open spec fn backward_from(
    grid: Map<u32, Parameter>,
    unit: MeshUnit,
    target: Point,
    cand: Point,
    fuel: nat,
) -> Result<Point, Error>
    decreases fuel,
{
    if fuel == 0 {
        Err(Error::NotConverged)
    } else {
        match spec_forward(grid, unit, cand) {
            Err(e) => Err(e),
            Ok(f) => {
                let lat = cand.latitude + (target.latitude - f.latitude);
                let lon = cand.longitude + (target.longitude - f.longitude);
                let alt = cand.altitude + (target.altitude - f.altitude);
                if !(fits_i64(lat) && fits_i64(lon) && fits_i64(alt)) {
                    Err(Error::OutOfRange)
                } else {
                    let next = Point {
                        latitude: lat as i64,
                        longitude: lon as i64,
                        altitude: alt as i64,
                    };
                    if below(target, f, CONVERGENCE_TOLERANCE as int) {
                        Ok(next)
                    } else {
                        backward_from(grid, unit, target, next, (fuel - 1) as nat)
                    }
                }
            },
        }
    }
}

/// The backward transformation: the iteration started at the point itself.
pub open spec fn spec_backward(grid: Map<u32, Parameter>, unit: MeshUnit, p: Point) -> Result<
    Point,
    Error,
> {
    backward_from(grid, unit, p, p, MAX_ITERATIONS as nat)
}

/// The verified backward transformation: the backward result, kept only
/// when its forward image is within the verification bound of the point.
pub open spec fn spec_backward_safe(
    grid: Map<u32, Parameter>,
    unit: MeshUnit,
    p: Point,
) -> Result<Point, Error> {
    match spec_backward(grid, unit, p) {
        Err(e) => Err(e),
        Ok(q) => match spec_forward(grid, unit, q) {
            Err(e) => Err(e),
            Ok(f) => if close(f, p, VERIFICATION_EPSILON as int) {
                Ok(q)
            } else {
                Err(Error::VerificationFailed)
            },
        },
    }
}

/// A coordinate transformer over one immutable parameter grid.
#[derive(Clone, Debug)]
pub struct Transformer {
    format: Format,
    parameter: HashMap<u32, Parameter>,
}

impl Transformer {
    /// The format the grid was published in.
    pub closed spec fn spec_format(&self) -> Format {
        self.format
    }

    /// The grid: a parameter for each meshcode that has one.
    pub closed spec fn grid(&self) -> Map<u32, Parameter> {
        self.parameter@
    }

    pub open spec fn spec_unit(&self) -> MeshUnit {
        self.spec_format().spec_unit()
    }

    /// A transformer over the given grid.
    pub fn new(format: Format, parameter: HashMap<u32, Parameter>) -> (r: Transformer)
        ensures
            r.spec_format() == format,
            r.grid() == parameter@,
    {
        Transformer { format, parameter }
    }

    /// The format the grid was published in.
    pub fn format(&self) -> (r: Format)
        ensures
            r == self.spec_format(),
    {
        self.format
    }

    /// The resolution of the grid.
    pub fn mesh_unit(&self) -> (r: MeshUnit)
        ensures
            r == self.spec_unit(),
    {
        self.format.mesh_unit()
    }

    /// The parameter published for a meshcode, if any.
    pub fn get(&self, meshcode: &u32) -> (r: Option<&Parameter>)
        ensures
            r is Some <==> self.grid().contains_key(*meshcode),
            r is Some ==> *r->Some_0 == self.grid()[*meshcode],
    {
        self.parameter.get(meshcode)
    }

    /// The parameters of the four nodes of a cell; `ParameterNotFound` when
    /// any of them has none.
    fn corners(&self, c: &MeshCell) -> (r: Result<(Parameter, Parameter, Parameter, Parameter), Error>)
        ensures
            r is Ok <==> corners_present(self.grid(), *c),
            r is Ok ==> r->Ok_0 == (
                self.grid()[c.south_west],
                self.grid()[c.south_east],
                self.grid()[c.north_west],
                self.grid()[c.north_east],
            ),
            r is Err ==> r->Err_0 == Error::ParameterNotFound,
    {
        let sw = match self.parameter.get(&c.south_west) {
            Some(p) => *p,
            None => return Err(Error::ParameterNotFound),
        };
        let se = match self.parameter.get(&c.south_east) {
            Some(p) => *p,
            None => return Err(Error::ParameterNotFound),
        };
        let nw = match self.parameter.get(&c.north_west) {
            Some(p) => *p,
            None => return Err(Error::ParameterNotFound),
        };
        let ne = match self.parameter.get(&c.north_east) {
            Some(p) => *p,
            None => return Err(Error::ParameterNotFound),
        };
        Ok((sw, se, nw, ne))
    }

    /// The forward transformation of a point. Fails with `OutOfRange` when
    /// the point or a node of its cell lies outside the grid's domain, or the
    /// moved altitude does not fit in `i64`, and with `ParameterNotFound` when
    /// a node of its cell has no parameter.
    #[verifier::rlimit(40)]
    pub fn forward(&self, point: &Point) -> (r: Result<Point, Error>)
        ensures
            r == spec_forward(self.grid(), self.spec_unit(), *point),
            r is Ok ==> {
                let c = spec_cell(point.latitude as int, point.longitude as int, self.spec_unit());
                let d = cell_width(self.spec_unit()) * cell_height(self.spec_unit());
                &&& nearest(r->Ok_0.latitude - point.latitude, weighted(self.grid(), c, self.spec_unit(), 0), d)
                &&& nearest(r->Ok_0.longitude - point.longitude, weighted(self.grid(), c, self.spec_unit(), 1), d)
                &&& nearest(r->Ok_0.altitude - point.altitude, weighted(self.grid(), c, self.spec_unit(), 2), d)
            },
    {
        let unit = self.mesh_unit();
        let c = cell_corners(point.latitude, point.longitude, unit)?;
        let (sw, se, nw, ne) = self.corners(&c)?;
        let s = unit.step() as i64;
        let w = s * LON_STEP;
        let h = s * LAT_STEP;
        assert(w == cell_width(unit) && h == cell_height(unit));
        let dlat = interpolate_value(sw.latitude, se.latitude, nw.latitude, ne.latitude, c.x, c.y, w, h);
        let dlon = interpolate_value(sw.longitude, se.longitude, nw.longitude, ne.longitude, c.x, c.y, w, h);
        let dalt = interpolate_value(sw.altitude, se.altitude, nw.altitude, ne.altitude, c.x, c.y, w, h);
        let alt = point.altitude as i128 + dalt as i128;
        if alt < i64::MIN as i128 || alt > i64::MAX as i128 {
            return Err(Error::OutOfRange);
        }
        Ok(Point {
            latitude: point.latitude + dlat as i64,
            longitude: point.longitude + dlon as i64,
            altitude: alt as i64,
        })
    }

    /// The backward transformation of a point: a point whose forward image
    /// is the given one, found by at most `MAX_ITERATIONS` steps of
    /// fixed-point iteration. Fails with `NotConverged` when the budget runs
    /// out, and with the error of `forward` when a step fails.
    pub fn backward(&self, point: &Point) -> (r: Result<Point, Error>)
        ensures
            r == spec_backward(self.grid(), self.spec_unit(), *point),
    {
        let mut cand = *point;
        let mut i: u32 = 0;
        while i < MAX_ITERATIONS
            invariant
                i <= MAX_ITERATIONS,
                backward_from(self.grid(), self.spec_unit(), *point, cand, (MAX_ITERATIONS - i) as nat)
                    == spec_backward(self.grid(), self.spec_unit(), *point),
            decreases MAX_ITERATIONS - i,
        {
            let f = self.forward(&cand)?;
            let dlat = point.latitude as i128 - f.latitude as i128;
            let dlon = point.longitude as i128 - f.longitude as i128;
            let dalt = point.altitude as i128 - f.altitude as i128;
            let lat = cand.latitude as i128 + dlat;
            let lon = cand.longitude as i128 + dlon;
            let alt = cand.altitude as i128 + dalt;
            if lat < i64::MIN as i128 || lat > i64::MAX as i128 || lon < i64::MIN as i128 || lon
                > i64::MAX as i128 || alt < i64::MIN as i128 || alt > i64::MAX as i128 {
                return Err(Error::OutOfRange);
            }
            let next = Point { latitude: lat as i64, longitude: lon as i64, altitude: alt as i64 };
            let tol = CONVERGENCE_TOLERANCE as i128;
            if -tol < dlat && dlat < tol && -tol < dlon && dlon < tol && -tol < dalt && dalt < tol {
                return Ok(next);
            }
            cand = next;
            i = i + 1;
        }
        Err(Error::NotConverged)
    }

    /// The verified backward transformation of a point: the backward result,
    /// checked to map forward onto the point within `VERIFICATION_EPSILON`.
    pub fn backward_safe(&self, point: &Point) -> (r: Result<Point, Error>)
        ensures
            r == spec_backward_safe(self.grid(), self.spec_unit(), *point),
    {
        let q = self.backward(point)?;
        let f = self.forward(&q)?;
        let eps = VERIFICATION_EPSILON as i128;
        let dlat = f.latitude as i128 - point.latitude as i128;
        let dlon = f.longitude as i128 - point.longitude as i128;
        let dalt = f.altitude as i128 - point.altitude as i128;
        if -eps <= dlat && dlat <= eps && -eps <= dlon && dlon <= eps && -eps <= dalt && dalt
            <= eps {
            Ok(q)
        } else {
            Err(Error::VerificationFailed)
        }
    }
}

} // verus!
