use jgdtrans::builder::TransformerBuilder;
use jgdtrans::format::Format;
use jgdtrans::transformer::Transformer;
use jgdtrans::{Error, Parameter, Point};

const DEGREE: i64 = 3_600_000_000_000;
const METRE: i64 = 1_000_000_000;
const LAT: i64 = 35 * DEGREE;
const LON: i64 = 135 * DEGREE;

fn degrees(v: i64) -> f64 {
    v as f64 / DEGREE as f64
}

fn metres(v: i64) -> f64 {
    v as f64 / METRE as f64
}

fn sample() -> Transformer {
    let p = Parameter::new(-608, 2238, -892);
    TransformerBuilder::new()
        .format(Format::SemiDynaEXE)
        .parameters(vec![
            (52353050, p),
            (52353055, p),
            (52354000, p),
            (52354005, p),
            (52354050, p),
            (52354055, p),
        ])
        .build()
        .unwrap()
}

fn one_cell(sw: Parameter, se: Parameter) -> Transformer {
    TransformerBuilder::new()
        .format(Format::TKY2JGD)
        .parameter(52354000, sw)
        .parameter(52354001, se)
        .parameter(52354010, sw)
        .parameter(52354011, se)
        .build()
        .unwrap()
}

#[test]
fn forward_end_to_end() {
    let tf = sample();
    let r = tf.forward(&Point::new(LAT, LON, 2_340_000_000)).unwrap();
    assert_eq!(r, Point::new(LAT - 6_080_000, LON + 22_380_000, 2_331_080_000));
    assert!((degrees(r.latitude) - 34.99999831111111).abs() < 1e-12);
    assert!((degrees(r.longitude) - 135.00000621666666).abs() < 1e-12);
    assert!((metres(r.altitude) - 2.33108).abs() < 1e-12);
}

#[test]
fn forward_inside_a_cell() {
    let tf = TransformerBuilder::new()
        .format(Format::SemiDynaEXE)
        .parameters(vec![
            (54401005, Parameter::new(-622, 1516, 9460)),
            (54401055, Parameter::new(-620, 1529, 8972)),
            (54401100, Parameter::new(-663, 1492, 10374)),
            (54401150, Parameter::new(-664, 1506, 10087)),
        ])
        .build()
        .unwrap();
    let lat = 129_960_000_000_000;
    let lon = 504_288_000_000_000;
    assert!((degrees(lat) - 36.1).abs() < 1e-12);
    assert!((degrees(lon) - 140.08).abs() < 1e-12);
    let r = tf.forward(&Point::new(lat, lon, 0)).unwrap();
    assert_eq!(r, Point::new(lat - 6_330_160, lon + 15_145_920, 95_432_320));
    assert!((degrees(r.latitude) - 36.09999824162222).abs() <= 1e-9);
    assert!((degrees(r.longitude) - 140.0800042072).abs() <= 1e-9);
    assert!((metres(r.altitude) - 0.09543232).abs() <= 1e-9);
}

#[test]
fn backward_safe_end_to_end() {
    let tf = sample();
    let r = tf.forward(&Point::new(LAT, LON, 2_340_000_000)).unwrap();
    assert_eq!(tf.backward(&r), Ok(Point::new(LAT, LON, 2_340_000_000)));
    let q = tf.backward_safe(&r).unwrap();
    assert_eq!(q, Point::new(LAT, LON, 2_340_000_000));
    assert!((degrees(q.latitude) - 35.0).abs() <= 1e-9);
    assert!((degrees(q.longitude) - 135.0).abs() <= 1e-9);
    assert!((metres(q.altitude) - 2.3400000000005847).abs() <= 1e-9);
    let f = tf.forward(&q).unwrap();
    assert!((f.latitude - r.latitude).abs() <= 1);
    assert!((f.longitude - r.longitude).abs() <= 1);
    assert!((f.altitude - r.altitude).abs() <= 1);
}

#[test]
fn zero_grid_is_identity() {
    let z = Parameter::new(0, 0, 0);
    let tf = one_cell(z, z);
    for p in [
        Point::new(LAT, LON, 0),
        Point::new(LAT + 123, LON + 40_000_000_000, -77),
        Point::new(LAT + 29_999_999_999, LON + 1, 5),
    ] {
        assert_eq!(tf.forward(&p), Ok(p));
    }
}

#[test]
fn forward_interpolates_between_nodes() {
    let tf = one_cell(Parameter::new(0, 0, 0), Parameter::new(900, -900, 4500));
    let r = tf.forward(&Point::new(LAT, LON + 15_000_000_000, 0)).unwrap();
    assert_eq!(r, Point::new(LAT + 3_000_000, LON + 15_000_000_000 - 3_000_000, 15_000_000));
}

#[test]
fn missing_corner_is_reported() {
    let tf = TransformerBuilder::new()
        .format(Format::TKY2JGD)
        .parameter(52354000, Parameter::new(0, 0, 0))
        .parameter(52354001, Parameter::new(0, 0, 0))
        .parameter(52354010, Parameter::new(0, 0, 0))
        .build()
        .unwrap();
    assert_eq!(tf.forward(&Point::new(LAT + 1, LON + 1, 0)), Err(Error::ParameterNotFound));
    assert_eq!(tf.backward(&Point::new(LAT + 1, LON + 1, 0)), Err(Error::ParameterNotFound));
}

#[test]
fn out_of_range_is_reported() {
    let tf = sample();
    assert_eq!(tf.forward(&Point::new(-1, LON, 0)), Err(Error::OutOfRange));
    assert_eq!(tf.forward(&Point::new(LAT, 99 * DEGREE, 0)), Err(Error::OutOfRange));
    assert_eq!(tf.backward_safe(&Point::new(LAT, 181 * DEGREE, 0)), Err(Error::OutOfRange));
}

#[test]
fn oscillation_does_not_converge() {
    let tf = one_cell(Parameter::new(0, 0, 0), Parameter::new(0, 4_500_000, 0));
    let p = Point::new(LAT, LON + 10_000_000_000, 0);
    assert_eq!(tf.backward(&p), Err(Error::NotConverged));
    assert_eq!(tf.backward_safe(&p), Err(Error::NotConverged));
}

#[test]
fn step_equal_to_tolerance_does_not_converge() {
    // The longitude shift equals the eastward offset in the cell, so the
    // iteration alternates between the point and the west edge, stepping by
    // the point's offset each time.
    let tf = one_cell(Parameter::new(0, 0, 0), Parameter::new(0, 4_500_000, 0));
    let p = Point::new(LAT, LON + 2, 0);
    assert_eq!(tf.forward(&p), Ok(Point::new(LAT, LON + 4, 0)));
    assert_eq!(tf.backward(&p), Err(Error::NotConverged));
    let p = Point::new(LAT, LON + 1, 0);
    assert_eq!(tf.backward(&p), Ok(Point::new(LAT, LON, 0)));
}

#[test]
fn steep_grid_fails_verification() {
    let tf = one_cell(Parameter::new(0, -6_749_999, 0), Parameter::new(0, 6_750_001, 0));
    let x = 22_499_996_667;
    let p = Point::new(LAT, LON + x, 0);
    assert_eq!(tf.forward(&p), Ok(Point::new(LAT, LON + x + 1, 0)));
    assert_eq!(tf.backward(&p), Ok(Point::new(LAT, LON + x - 1, 0)));
    assert_eq!(tf.backward_safe(&p), Err(Error::VerificationFailed));
}
