//! Meshcodes: eight-digit identifiers of the cells of the national grid.
//!
//! A meshcode `ppuuqvrw` names a third-level cell of 30 arcseconds in
//! latitude and 45 arcseconds in longitude. Its latitude row index is
//! `pp * 80 + q * 10 + r`, counted from the equator, and its longitude column
//! index is `uu * 80 + v * 10 + w`, counted from 100 degrees east.
use vstd::prelude::*;

use crate::error::Error;
use crate::point::Point;

verus! {

/// Units of 1e-9 arcsecond in one third-level cell, along latitude.
pub const LAT_STEP: i64 = 30_000_000_000;

/// Units of 1e-9 arcsecond in one third-level cell, along longitude.
pub const LON_STEP: i64 = 45_000_000_000;

/// The western edge of the grid, 100 degrees east, in units of 1e-9 arcsecond.
pub const LON_ORIGIN: i64 = 360_000_000_000_000;

/// Third-level rows of the grid.
pub const LAT_CELLS: i64 = 8000;

/// Third-level columns of the grid.
pub const LON_CELLS: i64 = 6400;

/// The resolution of a parameter grid.
#[derive(Clone, Copy, Debug, PartialEq, Eq, Structural)]
pub enum MeshUnit {
    /// Nodes on every third-level cell.
    One,
    /// Nodes on every fifth third-level cell in each direction.
    Five,
}

impl MeshUnit {
    pub open spec fn spec_step(self) -> int {
        match self {
            MeshUnit::One => 1,
            MeshUnit::Five => 5,
        }
    }

    /// Third-level cells between two neighbouring nodes.
    pub fn step(&self) -> (r: u32)
        ensures
            r == self.spec_step(),
    {
        match self {
            MeshUnit::One => 1,
            MeshUnit::Five => 5,
        }
    }
}

/// Whether a latitude and longitude lie in the area that meshcodes cover.
pub open spec fn in_domain(lat: int, lon: int) -> bool {
    &&& 0 <= lat < LAT_CELLS * LAT_STEP
    &&& LON_ORIGIN <= lon < LON_ORIGIN + LON_CELLS * LON_STEP
}

pub open spec fn lat_index(lat: int) -> int {
    lat / (LAT_STEP as int)
}

pub open spec fn lon_index(lon: int) -> int {
    (lon - LON_ORIGIN) / (LON_STEP as int)
}

/// An index rounded down onto the nodes of `unit`.
pub open spec fn align(i: int, unit: MeshUnit) -> int {
    i - i % unit.spec_step()
}

/// The meshcode of the cell at row `a` and column `b`.
pub open spec fn code_of(a: int, b: int) -> int {
    (a / 80) * 1_000_000 + (b / 80) * 10_000 + (a % 80 / 10) * 1000 + (b % 80 / 10) * 100 + (a
        % 10) * 10 + b % 10
}

/// The row of the cell that a meshcode names.
pub open spec fn row_of(c: int) -> int {
    (c / 1_000_000) * 80 + (c / 1000 % 10) * 10 + c / 10 % 10
}

/// The column of the cell that a meshcode names.
pub open spec fn column_of(c: int) -> int {
    (c / 10_000 % 100) * 80 + (c / 100 % 10) * 10 + c % 10
}

/// Whether every digit of a meshcode is in its range.
pub open spec fn is_valid_code(c: int) -> bool {
    &&& 0 <= c < 100_000_000
    &&& c / 10_000 % 100 < 80
    &&& c / 1000 % 10 < 8
    &&& c / 100 % 10 < 8
}

/// The meshcode of the cell of `unit` whose lower-left node is at or below
/// and left of a point.
pub open spec fn spec_from_point(lat: int, lon: int, unit: MeshUnit) -> int {
    code_of(align(lat_index(lat), unit), align(lon_index(lon), unit))
}

pub proof fn lemma_code_of(a: int, b: int)
    requires
        0 <= a < LAT_CELLS,
        0 <= b < LON_CELLS,
    ensures
        is_valid_code(code_of(a, b)),
        row_of(code_of(a, b)) == a,
        column_of(code_of(a, b)) == b,
{
    let p = a / 80;
    let q = a % 80 / 10;
    let r = a % 10;
    let u = b / 80;
    let v = b % 80 / 10;
    let w = b % 10;
    let c = code_of(a, b);
    assert(a == p * 80 + q * 10 + r);
    assert(b == u * 80 + v * 10 + w);
    assert(0 <= p < 100 && 0 <= u < 80 && 0 <= q < 8 && 0 <= v < 8 && 0 <= r < 10 && 0 <= w < 10);
    assert(c == p * 1_000_000 + u * 10_000 + q * 1000 + v * 100 + r * 10 + w);
    assert(c / 10 == p * 100_000 + u * 1000 + q * 100 + v * 10 + r);
    assert(c % 10 == w);
    assert(c / 100 == p * 10_000 + u * 100 + q * 10 + v);
    assert(c / 10 % 10 == r);
    assert(c / 1000 == p * 1000 + u * 10 + q);
    assert(c / 100 % 10 == v);
    assert(c / 10_000 == p * 100 + u);
    assert(c / 1000 % 10 == q);
    assert(c / 1_000_000 == p);
    assert(c / 10_000 % 100 == u);
}

/// The meshcode of row `a` and column `b`.
fn encode(a: u32, b: u32) -> (r: u32)
    requires
        a < LAT_CELLS,
        b < LON_CELLS,
    ensures
        r == code_of(a as int, b as int),
{
    (a / 80) * 1_000_000 + (b / 80) * 10_000 + (a % 80 / 10) * 1000 + (b % 80 / 10) * 100 + (a
        % 10) * 10 + b % 10
}

/// Row index of a latitude already known to lie in the domain.
fn row_index(lat: i64) -> (r: u32)
    requires
        0 <= lat < LAT_CELLS * LAT_STEP,
    ensures
        r == lat_index(lat as int),
        r < LAT_CELLS,
{
    proof {
        let x = lat as int;
        vstd::arithmetic::div_mod::lemma_fundamental_div_mod(x, LAT_STEP as int);
        let q = x / LAT_STEP as int;
        assert(q < LAT_CELLS) by (nonlinear_arith)
            requires
                x == LAT_STEP * q + x % LAT_STEP as int,
                0 <= x % LAT_STEP as int,
                x < LAT_CELLS * LAT_STEP,
        ;
    }
    ((lat as u64) / (LAT_STEP as u64)) as u32
}

/// Column index of a longitude already known to lie in the domain.
fn column_index(lon: i64) -> (r: u32)
    requires
        LON_ORIGIN <= lon < LON_ORIGIN + LON_CELLS * LON_STEP,
    ensures
        r == lon_index(lon as int),
        r < LON_CELLS,
{
    proof {
        let x = lon - LON_ORIGIN as int;
        vstd::arithmetic::div_mod::lemma_fundamental_div_mod(x, LON_STEP as int);
        let q = x / LON_STEP as int;
        assert(q < LON_CELLS) by (nonlinear_arith)
            requires
                x == LON_STEP * q + x % LON_STEP as int,
                0 <= x % LON_STEP as int,
                x < LON_CELLS * LON_STEP,
        ;
    }
    (((lon - LON_ORIGIN) as u64) / (LON_STEP as u64)) as u32
}

/// The meshcode of the cell of `unit` that holds the point: its lower-left
/// node is the nearest node at or south-west of the point.
pub fn from_point(latitude: i64, longitude: i64, unit: MeshUnit) -> (r: Result<u32, Error>)
    ensures
        r is Ok <==> in_domain(latitude as int, longitude as int),
        r is Ok ==> r->Ok_0 == spec_from_point(latitude as int, longitude as int, unit),
        r is Err ==> r->Err_0 == Error::OutOfRange,
{
    if latitude < 0 || latitude >= LAT_CELLS * LAT_STEP || longitude < LON_ORIGIN || longitude
        >= LON_ORIGIN + LON_CELLS * LON_STEP {
        return Err(Error::OutOfRange);
    }
    let s = unit.step();
    let a = row_index(latitude);
    let b = column_index(longitude);
    proof {
        vstd::arithmetic::div_mod::lemma_fundamental_div_mod(a as int, s as int);
        vstd::arithmetic::div_mod::lemma_fundamental_div_mod(b as int, s as int);
    }
    Ok(encode(a - a % s, b - b % s))
}

/// The lower-left node of the cell that a meshcode names, at altitude zero.
pub fn to_point(meshcode: u32) -> (r: Result<Point, Error>)
    ensures
        r is Ok <==> is_valid_code(meshcode as int),
        r is Ok ==> r->Ok_0 == (Point {
            latitude: (row_of(meshcode as int) * LAT_STEP) as i64,
            longitude: (LON_ORIGIN + column_of(meshcode as int) * LON_STEP) as i64,
            altitude: 0,
        }),
        r is Err ==> r->Err_0 == Error::OutOfRange,
{
    if meshcode >= 100_000_000 || meshcode / 10_000 % 100 >= 80 || meshcode / 1000 % 10 >= 8
        || meshcode / 100 % 10 >= 8 {
        return Err(Error::OutOfRange);
    }
    let a = (meshcode / 1_000_000) * 80 + (meshcode / 1000 % 10) * 10 + meshcode / 10 % 10;
    let b = (meshcode / 10_000 % 100) * 80 + (meshcode / 100 % 10) * 10 + meshcode % 10;
    Ok(Point {
        latitude: a as i64 * LAT_STEP,
        longitude: LON_ORIGIN + b as i64 * LON_STEP,
        altitude: 0,
    })
}

/// Truncating a point onto the grid and taking the cell's node gives a point
/// no further north and no further east, and that node encodes to the same
/// meshcode.
#[verifier::rlimit(60)]
pub proof fn lemma_from_point_to_point(lat: int, lon: int, unit: MeshUnit)
    requires
        in_domain(lat, lon),
    ensures
        ({
            let c = spec_from_point(lat, lon, unit);
            let node_lat = row_of(c) * LAT_STEP;
            let node_lon = LON_ORIGIN + column_of(c) * LON_STEP;
            &&& is_valid_code(c)
            &&& node_lat <= lat
            &&& node_lon <= lon
            &&& in_domain(node_lat, node_lon)
            &&& spec_from_point(node_lat, node_lon, unit) == c
        }),
{
    let a = align(lat_index(lat), unit);
    let b = align(lon_index(lon), unit);
    let s = unit.spec_step();
    assert(0 <= a <= lat_index(lat) < LAT_CELLS);
    assert(0 <= b <= lon_index(lon) < LON_CELLS);
    lemma_code_of(a, b);
    vstd::arithmetic::div_mod::lemma_fundamental_div_mod(lat, LAT_STEP as int);
    vstd::arithmetic::div_mod::lemma_fundamental_div_mod(lon - LON_ORIGIN, LON_STEP as int);
    assert(a * LAT_STEP <= lat_index(lat) * LAT_STEP) by (nonlinear_arith)
        requires a <= lat_index(lat);
    assert(b * LON_STEP <= lon_index(lon) * LON_STEP) by (nonlinear_arith)
        requires b <= lon_index(lon);
    assert(a * LAT_STEP < LAT_CELLS * LAT_STEP) by (nonlinear_arith)
        requires a < LAT_CELLS;
    assert(b * LON_STEP < LON_CELLS * LON_STEP) by (nonlinear_arith)
        requires b < LON_CELLS;
    vstd::arithmetic::div_mod::lemma_div_multiples_vanish(a, LAT_STEP as int);
    vstd::arithmetic::div_mod::lemma_div_multiples_vanish(b, LON_STEP as int);
    assert(a % s == 0);
    assert(b % s == 0);
}

/// The cell of a grid that encloses a point: its four nodes and the
/// point's offset from the south-west node.
#[derive(Clone, Copy, Debug, PartialEq, Eq, Structural)]
pub struct MeshCell {
    pub south_west: u32,
    pub south_east: u32,
    pub north_west: u32,
    pub north_east: u32,
    /// Eastward offset from the south-west node, in units of 1e-9 arcsecond.
    pub x: i64,
    /// Northward offset from the south-west node, in units of 1e-9 arcsecond.
    pub y: i64,
}

/// Width of a cell of `unit`, in units of 1e-9 arcsecond.
pub open spec fn cell_width(unit: MeshUnit) -> int {
    unit.spec_step() * LON_STEP
}

/// Height of a cell of `unit`, in units of 1e-9 arcsecond.
pub open spec fn cell_height(unit: MeshUnit) -> int {
    unit.spec_step() * LAT_STEP
}

/// Whether a point and all four nodes of its cell of `unit` lie in the domain.
pub open spec fn cell_in_domain(lat: int, lon: int, unit: MeshUnit) -> bool {
    &&& in_domain(lat, lon)
    &&& align(lat_index(lat), unit) + unit.spec_step() < LAT_CELLS
    &&& align(lon_index(lon), unit) + unit.spec_step() < LON_CELLS
}

/// The cell of `unit` that encloses a point.
pub open spec fn spec_cell(lat: int, lon: int, unit: MeshUnit) -> MeshCell {
    let a = align(lat_index(lat), unit);
    let b = align(lon_index(lon), unit);
    let s = unit.spec_step();
    MeshCell {
        south_west: code_of(a, b) as u32,
        south_east: code_of(a, b + s) as u32,
        north_west: code_of(a + s, b) as u32,
        north_east: code_of(a + s, b + s) as u32,
        x: (lon - LON_ORIGIN - b * LON_STEP) as i64,
        y: (lat - a * LAT_STEP) as i64,
    }
}

/// The cell of `unit` that encloses a point. A point on a grid line belongs
/// to the cell of which it is on the southern or western edge.
pub fn cell_corners(latitude: i64, longitude: i64, unit: MeshUnit) -> (r: Result<
    MeshCell,
    Error,
>)
    ensures
        r is Ok <==> cell_in_domain(latitude as int, longitude as int, unit),
        r is Ok ==> r->Ok_0 == spec_cell(latitude as int, longitude as int, unit),
        r is Ok ==> 0 <= r->Ok_0.x < cell_width(unit) && 0 <= r->Ok_0.y < cell_height(unit),
        r is Err ==> r->Err_0 == Error::OutOfRange,
{
    if latitude < 0 || latitude >= LAT_CELLS * LAT_STEP || longitude < LON_ORIGIN || longitude
        >= LON_ORIGIN + LON_CELLS * LON_STEP {
        return Err(Error::OutOfRange);
    }
    let s = unit.step();
    let a = row_index(latitude);
    let b = column_index(longitude);
    proof {
        vstd::arithmetic::div_mod::lemma_fundamental_div_mod(a as int, s as int);
        vstd::arithmetic::div_mod::lemma_fundamental_div_mod(b as int, s as int);
    }
    let a0 = a - a % s;
    let b0 = b - b % s;
    if a0 + s >= LAT_CELLS as u32 || b0 + s >= LON_CELLS as u32 {
        return Err(Error::OutOfRange);
    }
    proof {
        let x = latitude as int;
        vstd::arithmetic::div_mod::lemma_fundamental_div_mod(x, LAT_STEP as int);
        assert(0 <= x - a0 * LAT_STEP < s * LAT_STEP) by (nonlinear_arith)
            requires
                x == LAT_STEP * a + x % LAT_STEP as int,
                0 <= x % (LAT_STEP as int), x % (LAT_STEP as int) < LAT_STEP,
                a0 <= a,
                a < a0 + s,
        ;
        let z = longitude - LON_ORIGIN as int;
        vstd::arithmetic::div_mod::lemma_fundamental_div_mod(z, LON_STEP as int);
        assert(0 <= z - b0 * LON_STEP < s * LON_STEP) by (nonlinear_arith)
            requires
                z == LON_STEP * b + z % LON_STEP as int,
                0 <= z % (LON_STEP as int), z % (LON_STEP as int) < LON_STEP,
                b0 <= b,
                b < b0 + s,
        ;
    }
    Ok(MeshCell {
        south_west: encode(a0, b0),
        south_east: encode(a0, b0 + s),
        north_west: encode(a0 + s, b0),
        north_east: encode(a0 + s, b0 + s),
        x: longitude - LON_ORIGIN - b0 as i64 * LON_STEP,
        y: latitude - a0 as i64 * LAT_STEP,
    })
}

} // verus!
