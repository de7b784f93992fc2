use std::hash::RandomState;

use jgdtrans::builder::TransformerBuilder;
use jgdtrans::format::Format;
use jgdtrans::{Error, MeshUnit, Parameter};

#[test]
fn test_impl() {
    let tf = TransformerBuilder::new()
        .format(Format::SemiDynaEXE)
        .parameter(54401005, Parameter::new(-622, 1516, 9460))
        .parameter(54401055, Parameter::new(-620, 1529, 8972))
        .parameter(54401100, Parameter::new(-663, 1492, 10374))
        .build()
        .unwrap();

    assert_eq!(tf.get(&54401005), Some(&Parameter::new(-622, 1516, 9460)));
    assert_eq!(tf.get(&54401055), Some(&Parameter::new(-620, 1529, 8972)));
    assert_eq!(tf.get(&54401100), Some(&Parameter::new(-663, 1492, 10374)));
}

#[test]
fn build_without_format_fails() {
    let r = TransformerBuilder::new().build();
    assert_eq!(r.err(), Some(Error::FormatNotAssigned));
}

#[test]
fn builder_sets_mesh_unit_from_format() {
    let tf = TransformerBuilder::new().format(Format::SemiDynaEXE).build().unwrap();
    assert_eq!(tf.mesh_unit(), MeshUnit::Five);
    let tf = TransformerBuilder::new().format(Format::TKY2JGD).build().unwrap();
    assert_eq!(tf.mesh_unit(), MeshUnit::One);
}

#[test]
fn parameters_adds_in_order() {
    let tf = TransformerBuilder::with_capacity(10)
        .format(Format::SemiDynaEXE)
        .parameters(vec![
            (54401005, Parameter::new(-622, 1516, 9460)),
            (54401055, Parameter::new(-620, 1529, 8972)),
            (54401100, Parameter::new(-663, 1492, 10374)),
            (54401150, Parameter::new(-664, 1506, 10087)),
            (54401005, Parameter::new(1, 2, 3)),
        ])
        .build()
        .unwrap();
    assert_eq!(tf.get(&54401005), Some(&Parameter::new(1, 2, 3)));
    assert_eq!(tf.get(&54401055), Some(&Parameter::new(-620, 1529, 8972)));
    assert_eq!(tf.get(&54401100), Some(&Parameter::new(-663, 1492, 10374)));
    assert_eq!(tf.get(&54401150), Some(&Parameter::new(-664, 1506, 10087)));
    assert_eq!(tf.get(&54401000), None);
}

#[test]
fn hasher_constructors_start_empty() {
    let tf = TransformerBuilder::with_hasher(RandomState::new())
        .format(Format::SemiDynaEXE)
        .parameter(54401005, Parameter::new(-622, 1516, 9460))
        .shrink_to_fit()
        .build()
        .unwrap();
    assert_eq!(tf.get(&54401005), Some(&Parameter::new(-622, 1516, 9460)));
    assert_eq!(tf.get(&54401055), None);

    let tf = TransformerBuilder::with_capacity_and_hasher(10, RandomState::new())
        .format(Format::PatchJGD)
        .build()
        .unwrap();
    assert_eq!(tf.get(&54401005), None);
    assert_eq!(tf.format(), Format::PatchJGD);
}

#[test]
fn sample_grid_lookup_is_exact() {
    let tf = TransformerBuilder::default()
        .format(Format::SemiDynaEXE)
        .parameters(vec![
            (54401005, Parameter::new(-622, 1516, 9460)),
            (54401055, Parameter::new(-620, 1529, 8972)),
        ])
        .build()
        .unwrap();
    assert_eq!(tf.get(&54401005), Some(&Parameter::new(-622, 1516, 9460)));
}

#[test]
fn format_units_and_fields() {
    assert_eq!(Format::TKY2JGD.mesh_unit(), MeshUnit::One);
    assert_eq!(Format::PatchJGD_HV.mesh_unit(), MeshUnit::One);
    assert_eq!(Format::HyokoRev.mesh_unit(), MeshUnit::One);
    assert_eq!(Format::geonetF3.mesh_unit(), MeshUnit::Five);
    assert_eq!(Format::ITRF2014.mesh_unit(), MeshUnit::Five);
    let f = Format::PatchJGD_H.fields();
    assert!(!f.latitude && !f.longitude && f.altitude);
    let f = Format::TKY2JGD.fields();
    assert!(f.latitude && f.longitude && !f.altitude);
    let f = Format::SemiDynaEXE.fields();
    assert!(f.latitude && f.longitude && f.altitude);
}
