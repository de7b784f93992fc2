use vstd::prelude::*;

verus! {

/// A position: latitude and longitude in units of 1e-9 arcsecond, altitude
/// in units of 1e-9 metre.
#[derive(Clone, Copy, Debug, PartialEq, Eq, Structural)]
pub struct Point {
    pub latitude: i64,
    pub longitude: i64,
    pub altitude: i64,
}

impl Point {
    pub fn new(latitude: i64, longitude: i64, altitude: i64) -> (r: Point)
        ensures
            r.latitude == latitude,
            r.longitude == longitude,
            r.altitude == altitude,
    {
        Point { latitude, longitude, altitude }
    }
}

/// A correction published for one grid node: latitude and longitude shifts
/// in units of 1e-5 arcsecond, altitude shift in units of 1e-5 metre.
#[derive(Clone, Copy, Debug, PartialEq, Eq, Structural)]
pub struct Parameter {
    pub latitude: i32,
    pub longitude: i32,
    pub altitude: i32,
}

impl Parameter {
    pub fn new(latitude: i32, longitude: i32, altitude: i32) -> (r: Parameter)
        ensures
            r.latitude == latitude,
            r.longitude == longitude,
            r.altitude == altitude,
    {
        Parameter { latitude, longitude, altitude }
    }
}

} // verus!
