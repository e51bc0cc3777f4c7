//! Dolby Atmos: the Atmos descriptor and its C record.
use vstd::prelude::*;

use crate::sys;
use crate::Rational;

verus! {

/// Atmos descriptor.
#[derive(Debug, Clone, Copy)]
pub struct AtmosDescriptor {
    pub edit_rate: Rational,
    pub container_duration: u32,
    pub asset_id: [u8; 16],
    pub data_essence_coding: [u8; 16],
    pub first_frame: u32,
    pub max_channel_count: u16,
    pub max_object_count: u16,
    pub atmos_id: [u8; 16],
    pub atmos_version: u8,
}

impl AtmosDescriptor {
    /// The C record of this descriptor.
    pub open spec fn spec_to_ffi(self) -> sys::AsdcpAtmosDescriptor {
        sys::AsdcpAtmosDescriptor {
            edit_rate: self.edit_rate.spec_to_ffi(),
            container_duration: self.container_duration,
            asset_id: self.asset_id,
            data_essence_coding: self.data_essence_coding,
            first_frame: self.first_frame,
            max_channel_count: self.max_channel_count,
            max_object_count: self.max_object_count,
            atmos_id: self.atmos_id,
            atmos_version: self.atmos_version,
        }
    }

    /// The descriptor a C record carries.
    pub open spec fn spec_from_ffi(ffi: sys::AsdcpAtmosDescriptor) -> AtmosDescriptor {
        AtmosDescriptor {
            edit_rate: Rational::spec_from_ffi(ffi.edit_rate),
            container_duration: ffi.container_duration,
            asset_id: ffi.asset_id,
            data_essence_coding: ffi.data_essence_coding,
            first_frame: ffi.first_frame,
            max_channel_count: ffi.max_channel_count,
            max_object_count: ffi.max_object_count,
            atmos_id: ffi.atmos_id,
            atmos_version: ffi.atmos_version,
        }
    }

    pub fn to_ffi(&self) -> (ffi: sys::AsdcpAtmosDescriptor)
        ensures
            ffi == self.spec_to_ffi(),
    {
        sys::AsdcpAtmosDescriptor {
            edit_rate: self.edit_rate.to_ffi(),
            container_duration: self.container_duration,
            asset_id: self.asset_id,
            data_essence_coding: self.data_essence_coding,
            first_frame: self.first_frame,
            max_channel_count: self.max_channel_count,
            max_object_count: self.max_object_count,
            atmos_id: self.atmos_id,
            atmos_version: self.atmos_version,
        }
    }

    pub fn from_ffi(ffi: &sys::AsdcpAtmosDescriptor) -> (desc: AtmosDescriptor)
        ensures
            desc == AtmosDescriptor::spec_from_ffi(*ffi),
    {
        AtmosDescriptor {
            edit_rate: Rational::from_ffi(&ffi.edit_rate),
            container_duration: ffi.container_duration,
            asset_id: ffi.asset_id,
            data_essence_coding: ffi.data_essence_coding,
            first_frame: ffi.first_frame,
            max_channel_count: ffi.max_channel_count,
            max_object_count: ffi.max_object_count,
            atmos_id: ffi.atmos_id,
            atmos_version: ffi.atmos_version,
        }
    }
}

/// The Atmos record carries each item in the field of the same name, and
/// reading takes each item from the field of the same name.
pub proof fn lemma_atmos_descriptor_record_fields(desc: AtmosDescriptor, ffi: sys::AsdcpAtmosDescriptor)
    ensures
        desc.spec_to_ffi().edit_rate.numerator == desc.edit_rate.numerator,
        desc.spec_to_ffi().edit_rate.denominator == desc.edit_rate.denominator,
        desc.spec_to_ffi().container_duration == desc.container_duration,
        desc.spec_to_ffi().asset_id == desc.asset_id,
        desc.spec_to_ffi().data_essence_coding == desc.data_essence_coding,
        desc.spec_to_ffi().first_frame == desc.first_frame,
        desc.spec_to_ffi().max_channel_count == desc.max_channel_count,
        desc.spec_to_ffi().max_object_count == desc.max_object_count,
        desc.spec_to_ffi().atmos_id == desc.atmos_id,
        desc.spec_to_ffi().atmos_version == desc.atmos_version,
        AtmosDescriptor::spec_from_ffi(ffi).edit_rate.numerator == ffi.edit_rate.numerator,
        AtmosDescriptor::spec_from_ffi(ffi).edit_rate.denominator == ffi.edit_rate.denominator,
        AtmosDescriptor::spec_from_ffi(ffi).container_duration == ffi.container_duration,
        AtmosDescriptor::spec_from_ffi(ffi).asset_id == ffi.asset_id,
        AtmosDescriptor::spec_from_ffi(ffi).data_essence_coding == ffi.data_essence_coding,
        AtmosDescriptor::spec_from_ffi(ffi).first_frame == ffi.first_frame,
        AtmosDescriptor::spec_from_ffi(ffi).max_channel_count == ffi.max_channel_count,
        AtmosDescriptor::spec_from_ffi(ffi).max_object_count == ffi.max_object_count,
        AtmosDescriptor::spec_from_ffi(ffi).atmos_id == ffi.atmos_id,
        AtmosDescriptor::spec_from_ffi(ffi).atmos_version == ffi.atmos_version,
{
}

/// An Atmos descriptor read back from the C record it was written as is the
/// descriptor itself.
pub proof fn lemma_atmos_descriptor_roundtrip(desc: AtmosDescriptor)
    ensures
        AtmosDescriptor::spec_from_ffi(desc.spec_to_ffi()) == desc,
{
}

} // verus!
