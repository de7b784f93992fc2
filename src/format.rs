//! The families of published parameter files.
use vstd::prelude::*;

use crate::mesh::MeshUnit;

verus! {

/// A family of parameter files. Each fixes the grid's resolution and which
/// components of a parameter carry meaning.
#[allow(non_camel_case_types)]
#[derive(Clone, Copy, Debug, PartialEq, Eq, Structural)]
pub enum Format {
    TKY2JGD,
    PatchJGD,
    PatchJGD_H,
    PatchJGD_HV,
    HyokoRev,
    SemiDynaEXE,
    geonetF3,
    ITRF2014,
}

/// Which components of a parameter a format populates.
#[derive(Clone, Copy, Debug, PartialEq, Eq, Structural)]
pub struct FieldUsage {
    pub latitude: bool,
    pub longitude: bool,
    pub altitude: bool,
}

impl Format {
    pub open spec fn spec_unit(self) -> MeshUnit {
        match self {
            Format::SemiDynaEXE | Format::geonetF3 | Format::ITRF2014 => MeshUnit::Five,
            _ => MeshUnit::One,
        }
    }

    pub open spec fn spec_fields(self) -> FieldUsage {
        match self {
            Format::TKY2JGD | Format::PatchJGD => FieldUsage {
                latitude: true,
                longitude: true,
                altitude: false,
            },
            Format::PatchJGD_H | Format::HyokoRev => FieldUsage {
                latitude: false,
                longitude: false,
                altitude: true,
            },
            _ => FieldUsage { latitude: true, longitude: true, altitude: true },
        }
    }

    /// The resolution of the grids of this format.
    pub fn mesh_unit(&self) -> (r: MeshUnit)
        ensures
            r == self.spec_unit(),
    {
        match self {
            Format::SemiDynaEXE | Format::geonetF3 | Format::ITRF2014 => MeshUnit::Five,
            _ => MeshUnit::One,
        }
    }

    /// The components of a parameter that this format populates.
    pub fn fields(&self) -> (r: FieldUsage)
        ensures
            r == self.spec_fields(),
    {
        match self {
            Format::TKY2JGD | Format::PatchJGD => FieldUsage {
                latitude: true,
                longitude: true,
                altitude: false,
            },
            Format::PatchJGD_H | Format::HyokoRev => FieldUsage {
                latitude: false,
                longitude: false,
                altitude: true,
            },
            _ => FieldUsage { latitude: true, longitude: true, altitude: true },
        }
    }
}

} // verus!
