//! Timed text (subtitles): the descriptor and the ancillary resources
//! (fonts, images) a timed-text MXF carries.
use vstd::prelude::*;

use crate::sys;
use crate::Rational;

verus! {

/// Timed text descriptor.
#[derive(Debug, Clone, Copy)]
pub struct TimedTextDescriptor {
    pub edit_rate: Rational,
    pub container_duration: u32,
    pub asset_id: [u8; 16],
}

impl TimedTextDescriptor {
    /// The C record of this descriptor.
    pub open spec fn spec_to_ffi(self) -> sys::AsdcpTimedTextDescriptor {
        sys::AsdcpTimedTextDescriptor {
            edit_rate: self.edit_rate.spec_to_ffi(),
            container_duration: self.container_duration,
            asset_id: self.asset_id,
        }
    }

    /// The descriptor a C record carries.
    pub open spec fn spec_from_ffi(ffi: sys::AsdcpTimedTextDescriptor) -> TimedTextDescriptor {
        TimedTextDescriptor {
            edit_rate: Rational::spec_from_ffi(ffi.edit_rate),
            container_duration: ffi.container_duration,
            asset_id: ffi.asset_id,
        }
    }

    pub fn to_ffi(&self) -> (ffi: sys::AsdcpTimedTextDescriptor)
        ensures
            ffi == self.spec_to_ffi(),
    {
        sys::AsdcpTimedTextDescriptor {
            edit_rate: self.edit_rate.to_ffi(),
            container_duration: self.container_duration,
            asset_id: self.asset_id,
        }
    }

    pub fn from_ffi(ffi: &sys::AsdcpTimedTextDescriptor) -> (desc: TimedTextDescriptor)
        ensures
            desc == TimedTextDescriptor::spec_from_ffi(*ffi),
    {
        TimedTextDescriptor {
            edit_rate: Rational::from_ffi(&ffi.edit_rate),
            container_duration: ffi.container_duration,
            asset_id: ffi.asset_id,
        }
    }
}

/// A timed text descriptor read back from the C record it was written as is
/// the descriptor itself.
pub proof fn lemma_timed_text_descriptor_roundtrip(desc: TimedTextDescriptor)
    ensures
        TimedTextDescriptor::spec_from_ffi(desc.spec_to_ffi()) == desc,
{
}

/// The timed text record carries the edit rate, container duration and
/// asset ID each in the field of the same name, and reading takes each from
/// the field of the same name.
pub proof fn lemma_timed_text_descriptor_record_fields(
    desc: TimedTextDescriptor,
    ffi: sys::AsdcpTimedTextDescriptor,
)
    ensures
        desc.spec_to_ffi().edit_rate.numerator == desc.edit_rate.numerator,
        desc.spec_to_ffi().edit_rate.denominator == desc.edit_rate.denominator,
        desc.spec_to_ffi().container_duration == desc.container_duration,
        desc.spec_to_ffi().asset_id == desc.asset_id,
        TimedTextDescriptor::spec_from_ffi(ffi).edit_rate.numerator == ffi.edit_rate.numerator,
        TimedTextDescriptor::spec_from_ffi(ffi).edit_rate.denominator == ffi.edit_rate.denominator,
        TimedTextDescriptor::spec_from_ffi(ffi).container_duration == ffi.container_duration,
        TimedTextDescriptor::spec_from_ffi(ffi).asset_id == ffi.asset_id,
{
}

/// MIME category of a timed-text ancillary resource.
#[derive(Debug, Clone, Copy, PartialEq, Eq, Structural)]
pub enum MimeType {
    Binary,
    Png,
    OpenType,
}

impl MimeType {
    /// The category's number in the C interface.
    pub open spec fn spec_code(self) -> i32 {
        match self {
            MimeType::Binary => 0,
            MimeType::Png => 1,
            MimeType::OpenType => 2,
        }
    }

    /// The category a C interface number stands for; numbers other than 1
    /// and 2 read as `Binary`.
    pub open spec fn spec_from_code(code: i32) -> MimeType {
        if code == 1 {
            MimeType::Png
        } else if code == 2 {
            MimeType::OpenType
        } else {
            MimeType::Binary
        }
    }

    pub fn code(self) -> (code: i32)
        ensures
            code == self.spec_code(),
    {
        match self {
            MimeType::Binary => 0,
            MimeType::Png => 1,
            MimeType::OpenType => 2,
        }
    }

    pub fn from_i32(v: i32) -> (mime: MimeType)
        ensures
            mime == MimeType::spec_from_code(v),
    {
        match v {
            1 => MimeType::Png,
            2 => MimeType::OpenType,
            _ => MimeType::Binary,
        }
    }
}

/// Every MIME category survives the trip through its C interface number.
pub proof fn lemma_mime_type_code_roundtrip(mime: MimeType)
    ensures
        MimeType::spec_from_code(mime.spec_code()) == mime,
{
}

/// The MIME categories carry the C interface's numbers: binary 0, PNG 1,
/// OpenType 2; 1 and 2 read back as PNG and OpenType, every other number as
/// binary.
pub proof fn lemma_mime_type_codes(code: i32)
    ensures
        MimeType::Binary.spec_code() == 0,
        MimeType::Png.spec_code() == 1,
        MimeType::OpenType.spec_code() == 2,
        MimeType::spec_from_code(1) == MimeType::Png,
        MimeType::spec_from_code(2) == MimeType::OpenType,
        code != 1 && code != 2 ==> MimeType::spec_from_code(code) == MimeType::Binary,
{
}

/// Identity of an ancillary resource (font, image) embedded in a timed-text MXF.
#[derive(Debug, Clone, Copy)]
pub struct AncillaryResourceInfo {
    pub uuid: [u8; 16],
    pub mime_type: MimeType,
}

impl AncillaryResourceInfo {
    /// The resource identity the C library reports as a UUID and a MIME
    /// category number.
    pub fn from_ffi(uuid: [u8; 16], mime_type: i32) -> (info: AncillaryResourceInfo)
        ensures
            info.uuid == uuid,
            info.mime_type == MimeType::spec_from_code(mime_type),
    {
        AncillaryResourceInfo { uuid, mime_type: MimeType::from_i32(mime_type) }
    }
}

/// The UUIDs of `resources` one after another, 16 bytes each.
pub open spec fn concatenated_uuids(resources: Seq<AncillaryResourceInfo>) -> Seq<u8>
    decreases resources.len(),
{
    if resources.len() == 0 {
        Seq::empty()
    } else {
        concatenated_uuids(resources.drop_last()) + resources.last().uuid@
    }
}

/// The UUID table holds 16 bytes per resource, and byte `k` of the `i`-th
/// resource's UUID sits at position `16 * i + k`.
pub proof fn lemma_concatenated_uuids_positions(resources: Seq<AncillaryResourceInfo>)
    ensures
        concatenated_uuids(resources).len() == 16 * resources.len(),
        forall|i: int, k: int|
            0 <= i < resources.len() && 0 <= k < 16 ==> #[trigger] concatenated_uuids(resources)[16
                * i + k] == #[trigger] resources[i].uuid[k],
    decreases resources.len(),
{
    if resources.len() > 0 {
        let front = resources.drop_last();
        lemma_concatenated_uuids_positions(front);
        assert forall|i: int, k: int|
            0 <= i < resources.len() && 0 <= k < 16 implies #[trigger] concatenated_uuids(
            resources,
        )[16 * i + k] == #[trigger] resources[i].uuid[k] by {
            if i < resources.len() - 1 {
                assert(front[i] == resources[i]);
                assert(concatenated_uuids(front)[16 * i + k] == front[i].uuid[k]);
            } else {
                assert(resources.last() == resources[i]);
            }
        }
    }
}

/// The declaration tables the C library takes for `resources`: their UUIDs
/// laid end to end, and their MIME category numbers, both in the order given.
pub fn resource_tables(resources: &[AncillaryResourceInfo]) -> (tables: (Vec<u8>, Vec<i32>))
    ensures
        tables.0@ == concatenated_uuids(resources@),
        tables.0@.len() == 16 * resources@.len(),
        tables.1@ == resources@.map_values(|r: AncillaryResourceInfo| r.mime_type.spec_code()),
{
    let mut uuids: Vec<u8> = Vec::new();
    let mut types: Vec<i32> = Vec::new();
    let mut i: usize = 0;
    while i < resources.len()
        invariant
            i <= resources@.len(),
            uuids@ == concatenated_uuids(resources@.take(i as int)),
            uuids@.len() == 16 * i,
            types@ == resources@.take(i as int).map_values(
                |r: AncillaryResourceInfo| r.mime_type.spec_code(),
            ),
        decreases resources@.len() - i,
    {
        let r = resources[i];
        let ghost before = uuids@;
        let mut k: usize = 0;
        while k < 16
            invariant
                k <= 16,
                uuids@ == before + r.uuid@.take(k as int),
            decreases 16 - k,
        {
            uuids.push(r.uuid[k]);
            assert(r.uuid@.take(k + 1) == r.uuid@.take(k as int).push(r.uuid@[k as int]));
            k = k + 1;
        }
        types.push(r.mime_type.code());
        assert(resources@.take(i + 1).drop_last() == resources@.take(i as int));
        assert(r.uuid@.take(16) == r.uuid@);
        assert(resources@.take(i + 1).map_values(|r: AncillaryResourceInfo| r.mime_type.spec_code())
            == resources@.take(i as int).map_values(
            |r: AncillaryResourceInfo| r.mime_type.spec_code(),
        ).push(r.mime_type.spec_code()));
        i = i + 1;
    }
    assert(resources@.take(i as int) == resources@);
    (uuids, types)
}

} // verus!
