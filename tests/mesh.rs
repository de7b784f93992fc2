use jgdtrans::interpolation::interpolate_value;
use jgdtrans::mesh::{cell_corners, from_point, to_point};
use jgdtrans::{Error, MeshUnit, Point};

const DEGREE: i64 = 3_600_000_000_000;

#[test]
fn from_point_truncates_to_the_cell() {
    assert_eq!(from_point(35 * DEGREE, 135 * DEGREE, MeshUnit::Five), Ok(52354000));
    assert_eq!(from_point(35 * DEGREE, 135 * DEGREE, MeshUnit::One), Ok(52354000));
    assert_eq!(from_point(35 * DEGREE - 1, 135 * DEGREE, MeshUnit::One), Ok(52353090));
    assert_eq!(from_point(35 * DEGREE - 1, 135 * DEGREE, MeshUnit::Five), Ok(52353050));
    assert_eq!(from_point(36 * DEGREE + 1, 140 * DEGREE + 5 * 45_000_000_000 + 7, MeshUnit::Five), Ok(54400005));
}

#[test]
fn from_point_rejects_outside_the_domain() {
    assert_eq!(from_point(-1, 135 * DEGREE, MeshUnit::One), Err(Error::OutOfRange));
    assert_eq!(from_point(35 * DEGREE, 100 * DEGREE - 1, MeshUnit::One), Err(Error::OutOfRange));
    assert_eq!(from_point(35 * DEGREE, 180 * DEGREE, MeshUnit::One), Err(Error::OutOfRange));
}

#[test]
fn to_point_gives_the_south_west_node() {
    assert_eq!(to_point(52354000), Ok(Point::new(35 * DEGREE, 135 * DEGREE, 0)));
    assert_eq!(to_point(54401005), Ok(Point::new(36 * DEGREE + 5 * 60 * 1_000_000_000, 140 * DEGREE + 5 * 45_000_000_000, 0)));
    assert_eq!(to_point(52354800), Err(Error::OutOfRange));
    assert_eq!(to_point(52358000), Err(Error::OutOfRange));
    assert_eq!(to_point(99999999), Err(Error::OutOfRange));
    assert_eq!(to_point(100000000), Err(Error::OutOfRange));
}

#[test]
fn truncation_round_trip() {
    let lat = 35 * DEGREE + 1_234_567_890_123;
    let lon = 135 * DEGREE + 9_876_543_210_987;
    for unit in [MeshUnit::One, MeshUnit::Five] {
        let code = from_point(lat, lon, unit).unwrap();
        let node = to_point(code).unwrap();
        assert!(node.latitude <= lat);
        assert!(node.longitude <= lon);
        assert_eq!(from_point(node.latitude, node.longitude, unit), Ok(code));
    }
}

#[test]
fn cell_corners_in_order() {
    let c = cell_corners(35 * DEGREE + 10, 135 * DEGREE + 20, MeshUnit::Five).unwrap();
    assert_eq!(c.south_west, 52354000);
    assert_eq!(c.south_east, 52354005);
    assert_eq!(c.north_west, 52354050);
    assert_eq!(c.north_east, 52354055);
    assert_eq!(c.x, 20);
    assert_eq!(c.y, 10);
    let c = cell_corners(35 * DEGREE, 135 * DEGREE, MeshUnit::One).unwrap();
    assert_eq!((c.south_west, c.south_east, c.north_west, c.north_east), (52354000, 52354001, 52354010, 52354011));
    assert_eq!((c.x, c.y), (0, 0));
    assert_eq!(cell_corners(-5, 135 * DEGREE, MeshUnit::One), Err(Error::OutOfRange));
}

#[test]
fn interpolation_values() {
    assert_eq!(interpolate_value(0, 100, 200, 300, 50, 30, 100, 60), 1_500_000);
    assert_eq!(interpolate_value(7, 100, 200, 300, 0, 0, 100, 60), 70_000);
    assert_eq!(interpolate_value(-1, 0, 0, 0, 1, 0, 2, 1), -5_000);
    assert_eq!(interpolate_value(10, 20, 10, 20, 25, 0, 100, 60), 125_000);
}

#[test]
fn interpolation_rounds_to_nearest() {
    assert_eq!(interpolate_value(1, 0, 0, 0, 1, 0, 3, 1), 6_667);
    assert_eq!(interpolate_value(-1, 0, 0, 0, 1, 0, 3, 1), -6_667);
    assert_eq!(interpolate_value(1, 0, 0, 0, 2, 0, 3, 1), 3_333);
    assert_eq!(interpolate_value(1, 0, 0, 0, 19_999, 0, 20_000, 1), 1);
    assert_eq!(interpolate_value(-1, 0, 0, 0, 19_999, 0, 20_000, 1), 0);
}
