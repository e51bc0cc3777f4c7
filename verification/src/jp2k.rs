//! JPEG 2000 picture essence: labels, HDR metadata, codestream header values
//! and the picture descriptor, with their C records.
use vstd::prelude::*;

use crate::sys;
use crate::Rational;

verus! {

/// SMPTE ST 2084 (PQ) transfer characteristic UL, for HDR picture essence.
/// Defined in asdcplib MDD.cpp as `TransferCharacteristic_SMPTEST2084`.
pub const TRANSFER_CHARACTERISTIC_ST2084: [u8; 16] = [
    0x06, 0x0e, 0x2b, 0x34, 0x04, 0x01, 0x01, 0x0d, 0x04, 0x01, 0x01, 0x01, 0x01, 0x0a, 0x00, 0x00,
];

/// ITU-R BT.709 transfer characteristic UL (MDD.cpp `TransferCharacteristic_ITU709`),
/// the SDR transfer an IMF App 2E Rec.709 picture signals.
pub const TRANSFER_CHARACTERISTIC_BT709: [u8; 16] = [
    0x06, 0x0e, 0x2b, 0x34, 0x04, 0x01, 0x01, 0x01, 0x04, 0x01, 0x01, 0x01, 0x01, 0x02, 0x00, 0x00,
];

/// ITU-R BT.2020 transfer characteristic UL (MDD.cpp `TransferCharacteristic_ITU2020`).
pub const TRANSFER_CHARACTERISTIC_BT2020: [u8; 16] = [
    0x06, 0x0e, 0x2b, 0x34, 0x04, 0x01, 0x01, 0x0e, 0x04, 0x01, 0x01, 0x01, 0x01, 0x09, 0x00, 0x00,
];

/// ITU-R BT.709 color primaries UL (MDD.cpp `ColorPrimaries_ITU709`).
pub const COLOR_PRIMARIES_BT709: [u8; 16] = [
    0x06, 0x0e, 0x2b, 0x34, 0x04, 0x01, 0x01, 0x06, 0x04, 0x01, 0x01, 0x01, 0x03, 0x03, 0x00, 0x00,
];

/// ITU-R BT.2020 color primaries UL (MDD.cpp `ColorPrimaries_ITU2020`).
pub const COLOR_PRIMARIES_BT2020: [u8; 16] = [
    0x06, 0x0e, 0x2b, 0x34, 0x04, 0x01, 0x01, 0x0d, 0x04, 0x01, 0x01, 0x01, 0x03, 0x04, 0x00, 0x00,
];

/// P3 D65 color primaries UL (MDD.cpp `ColorPrimaries_P3D65`).
pub const COLOR_PRIMARIES_P3D65: [u8; 16] = [
    0x06, 0x0e, 0x2b, 0x34, 0x04, 0x01, 0x01, 0x0d, 0x04, 0x01, 0x01, 0x01, 0x03, 0x06, 0x00, 0x00,
];

/// The picture essence coding labels an AS-02 writer picks from the
/// codestream's Rsize (MDD.cpp `JP2KEssenceCompression_*`). An IMF profile gets
/// the label for its main and sub level where MDD names one, otherwise the
/// generic label for its family below. Anything outside the cinema and IMF
/// profiles falls back to [`PICTURE_ESSENCE_CODING_BROADCAST_PROFILE_1`].
pub const PICTURE_ESSENCE_CODING_CINEMA_2K: [u8; 16] = [
    0x06, 0x0e, 0x2b, 0x34, 0x04, 0x01, 0x01, 0x09, 0x04, 0x01, 0x02, 0x02, 0x03, 0x01, 0x01, 0x03,
];

/// See [`PICTURE_ESSENCE_CODING_CINEMA_2K`].
pub const PICTURE_ESSENCE_CODING_CINEMA_4K: [u8; 16] = [
    0x06, 0x0e, 0x2b, 0x34, 0x04, 0x01, 0x01, 0x09, 0x04, 0x01, 0x02, 0x02, 0x03, 0x01, 0x01, 0x04,
];

/// See [`PICTURE_ESSENCE_CODING_CINEMA_2K`].
pub const PICTURE_ESSENCE_CODING_BROADCAST_PROFILE_1: [u8; 16] = [
    0x06, 0x0e, 0x2b, 0x34, 0x04, 0x01, 0x01, 0x0d, 0x04, 0x01, 0x02, 0x02, 0x03, 0x01, 0x01, 0x11,
];

/// See [`PICTURE_ESSENCE_CODING_CINEMA_2K`].
pub const PICTURE_ESSENCE_CODING_IMF_2K_LOSSY: [u8; 16] = [
    0x06, 0x0e, 0x2b, 0x34, 0x04, 0x01, 0x01, 0x0d, 0x04, 0x01, 0x02, 0x02, 0x03, 0x01, 0x02, 0x00,
];

/// See [`PICTURE_ESSENCE_CODING_CINEMA_2K`].
pub const PICTURE_ESSENCE_CODING_IMF_4K_LOSSY: [u8; 16] = [
    0x06, 0x0e, 0x2b, 0x34, 0x04, 0x01, 0x01, 0x0d, 0x04, 0x01, 0x02, 0x02, 0x03, 0x01, 0x03, 0x00,
];

/// See [`PICTURE_ESSENCE_CODING_CINEMA_2K`].
pub const PICTURE_ESSENCE_CODING_IMF_8K_LOSSY: [u8; 16] = [
    0x06, 0x0e, 0x2b, 0x34, 0x04, 0x01, 0x01, 0x0d, 0x04, 0x01, 0x02, 0x02, 0x03, 0x01, 0x04, 0x00,
];

/// See [`PICTURE_ESSENCE_CODING_CINEMA_2K`].
pub const PICTURE_ESSENCE_CODING_IMF_2K_REVERSIBLE: [u8; 16] = [
    0x06, 0x0e, 0x2b, 0x34, 0x04, 0x01, 0x01, 0x0d, 0x04, 0x01, 0x02, 0x02, 0x03, 0x01, 0x05, 0x00,
];

/// See [`PICTURE_ESSENCE_CODING_CINEMA_2K`].
pub const PICTURE_ESSENCE_CODING_IMF_4K_REVERSIBLE: [u8; 16] = [
    0x06, 0x0e, 0x2b, 0x34, 0x04, 0x01, 0x01, 0x0d, 0x04, 0x01, 0x02, 0x02, 0x03, 0x01, 0x06, 0x00,
];

/// IMF 4K lossy, main level 6 sub level 3: what Rsiz 0x0536 maps to, and what
/// Netflix's Sol Levante App 2E picture carries.
pub const PICTURE_ESSENCE_CODING_IMF_4K_LOSSY_6_3: [u8; 16] = [
    0x06, 0x0e, 0x2b, 0x34, 0x04, 0x01, 0x01, 0x0d, 0x04, 0x01, 0x02, 0x02, 0x03, 0x01, 0x03, 0x12,
];

/// See [`PICTURE_ESSENCE_CODING_CINEMA_2K`].
pub const PICTURE_ESSENCE_CODING_IMF_8K_REVERSIBLE: [u8; 16] = [
    0x06, 0x0e, 0x2b, 0x34, 0x04, 0x01, 0x01, 0x0d, 0x04, 0x01, 0x02, 0x02, 0x03, 0x01, 0x07, 0x00,
];

/// Rsiz of the DCI 2K digital cinema profile.
pub const RSIZE_CINEMA_2K: u16 = 0x0003;

/// Rsiz of the DCI 4K digital cinema profile.
pub const RSIZE_CINEMA_4K: u16 = 0x0004;

/// Rsiz of the IMF 4K lossy profile at main level 6, sub level 3.
pub const RSIZE_IMF_4K_LOSSY_6_3: u16 = 0x0536;

/// The label an AS-02 writer gives a codestream of Rsiz `rsize`: the cinema
/// profiles their 2K and 4K labels, an IMF profile (Rsiz 0x04xx to 0x09xx,
/// the profile in the high byte and the main and sub levels in the low byte)
/// its level's own label where one is named and its family's label
/// otherwise, and every other Rsiz the Broadcast Profile 1 label.
pub open spec fn spec_picture_essence_coding(rsize: u16) -> [u8; 16] {
    let family = rsize / 256;
    if rsize == RSIZE_CINEMA_2K {
        PICTURE_ESSENCE_CODING_CINEMA_2K
    } else if rsize == RSIZE_CINEMA_4K {
        PICTURE_ESSENCE_CODING_CINEMA_4K
    } else if rsize == RSIZE_IMF_4K_LOSSY_6_3 {
        PICTURE_ESSENCE_CODING_IMF_4K_LOSSY_6_3
    } else if family == 4 {
        PICTURE_ESSENCE_CODING_IMF_2K_LOSSY
    } else if family == 5 {
        PICTURE_ESSENCE_CODING_IMF_4K_LOSSY
    } else if family == 6 {
        PICTURE_ESSENCE_CODING_IMF_8K_LOSSY
    } else if family == 7 {
        PICTURE_ESSENCE_CODING_IMF_2K_REVERSIBLE
    } else if family == 8 {
        PICTURE_ESSENCE_CODING_IMF_4K_REVERSIBLE
    } else if family == 9 {
        PICTURE_ESSENCE_CODING_IMF_8K_REVERSIBLE
    } else {
        PICTURE_ESSENCE_CODING_BROADCAST_PROFILE_1
    }
}

/// The PictureEssenceCoding label for a codestream of Rsiz `rsize`.
pub fn picture_essence_coding_for_rsize(rsize: u16) -> (label: [u8; 16])
    ensures
        label == spec_picture_essence_coding(rsize),
{
    let family = rsize / 256;
    if rsize == RSIZE_CINEMA_2K {
        PICTURE_ESSENCE_CODING_CINEMA_2K
    } else if rsize == RSIZE_CINEMA_4K {
        PICTURE_ESSENCE_CODING_CINEMA_4K
    } else if rsize == RSIZE_IMF_4K_LOSSY_6_3 {
        PICTURE_ESSENCE_CODING_IMF_4K_LOSSY_6_3
    } else if family == 4 {
        PICTURE_ESSENCE_CODING_IMF_2K_LOSSY
    } else if family == 5 {
        PICTURE_ESSENCE_CODING_IMF_4K_LOSSY
    } else if family == 6 {
        PICTURE_ESSENCE_CODING_IMF_8K_LOSSY
    } else if family == 7 {
        PICTURE_ESSENCE_CODING_IMF_2K_REVERSIBLE
    } else if family == 8 {
        PICTURE_ESSENCE_CODING_IMF_4K_REVERSIBLE
    } else if family == 9 {
        PICTURE_ESSENCE_CODING_IMF_8K_REVERSIBLE
    } else {
        PICTURE_ESSENCE_CODING_BROADCAST_PROFILE_1
    }
}

/// The label an AS-02 writer picks for each Rsiz: only Rsiz 0x0536 (IMF 4K
/// lossy, main level 6, sub level 3) gets the level 6 sub level 3 label;
/// the DCI 2K and 4K profiles (Rsiz 3 and 4) get the cinema labels; every
/// other IMF profile gets its family's label (0x04xx 2K lossy, 0x05xx 4K
/// lossy, 0x06xx 8K lossy, 0x07xx 2K reversible, 0x08xx 4K reversible,
/// 0x09xx 8K reversible); and every Rsiz outside these gets Broadcast
/// Profile 1.
pub proof fn lemma_picture_essence_coding_labels(rsize: u16)
    ensures
        (spec_picture_essence_coding(rsize) == PICTURE_ESSENCE_CODING_IMF_4K_LOSSY_6_3) <==> rsize
            == 0x0536,
        rsize == 0x0003 ==> spec_picture_essence_coding(rsize) == PICTURE_ESSENCE_CODING_CINEMA_2K,
        rsize == 0x0004 ==> spec_picture_essence_coding(rsize) == PICTURE_ESSENCE_CODING_CINEMA_4K,
        0x0400 <= rsize <= 0x04ff ==> spec_picture_essence_coding(rsize)
            == PICTURE_ESSENCE_CODING_IMF_2K_LOSSY,
        0x0500 <= rsize <= 0x05ff && rsize != 0x0536 ==> spec_picture_essence_coding(rsize)
            == PICTURE_ESSENCE_CODING_IMF_4K_LOSSY,
        0x0600 <= rsize <= 0x06ff ==> spec_picture_essence_coding(rsize)
            == PICTURE_ESSENCE_CODING_IMF_8K_LOSSY,
        0x0700 <= rsize <= 0x07ff ==> spec_picture_essence_coding(rsize)
            == PICTURE_ESSENCE_CODING_IMF_2K_REVERSIBLE,
        0x0800 <= rsize <= 0x08ff ==> spec_picture_essence_coding(rsize)
            == PICTURE_ESSENCE_CODING_IMF_4K_REVERSIBLE,
        0x0900 <= rsize <= 0x09ff ==> spec_picture_essence_coding(rsize)
            == PICTURE_ESSENCE_CODING_IMF_8K_REVERSIBLE,
        rsize != 0x0003 && rsize != 0x0004 && (rsize < 0x0400 || rsize > 0x09ff)
            ==> spec_picture_essence_coding(rsize) == PICTURE_ESSENCE_CODING_BROADCAST_PROFILE_1,
{
    let l = PICTURE_ESSENCE_CODING_IMF_4K_LOSSY_6_3;
    assert(l[15] == 0x12u8);
    assert(PICTURE_ESSENCE_CODING_CINEMA_2K[15] != l[15]);
    assert(PICTURE_ESSENCE_CODING_CINEMA_4K[15] != l[15]);
    assert(PICTURE_ESSENCE_CODING_BROADCAST_PROFILE_1[15] != l[15]);
    assert(PICTURE_ESSENCE_CODING_IMF_2K_LOSSY[15] != l[15]);
    assert(PICTURE_ESSENCE_CODING_IMF_4K_LOSSY[15] != l[15]);
    assert(PICTURE_ESSENCE_CODING_IMF_8K_LOSSY[15] != l[15]);
    assert(PICTURE_ESSENCE_CODING_IMF_2K_REVERSIBLE[15] != l[15]);
    assert(PICTURE_ESSENCE_CODING_IMF_4K_REVERSIBLE[15] != l[15]);
    assert(PICTURE_ESSENCE_CODING_IMF_8K_REVERSIBLE[15] != l[15]);
}

/// HDR/WCG picture metadata (SMPTE ST 2067-21). Every field is optional; only
/// those set are written. Chromaticity coordinates are raw ST 2086 u16 values
/// (0.00002 increments), luminance raw u32 (0.0001 cd/m^2 increments).
#[derive(Debug, Clone, Default, PartialEq, Eq)]
pub struct HdrMetadata {
    pub transfer_characteristic: Option<[u8; 16]>,
    pub color_primaries: Option<[u8; 16]>,
    /// ST 2086 display primaries as `[[x, y]; 3]` in First/Second/Third order.
    pub mastering_display_primaries: Option<[[u16; 2]; 3]>,
    pub mastering_display_white_point: Option<[u16; 2]>,
    pub mastering_display_max_luminance: Option<u32>,
    pub mastering_display_min_luminance: Option<u32>,
}

/// The C record of an optional item: its presence flag is 1 when it is set
/// and 0 when not, and when set its value is the item's.
pub open spec fn is_optional_written<T>(item: Option<T>, flag: i32, value: T) -> bool {
    &&& flag == crate::c_flag(item is Some)
    &&& (item matches Some(v) ==> value == v)
}

/// An optional item read back from its C record: present exactly when the
/// flag is nonzero, with the record's value.
pub open spec fn is_optional_read<T>(item: Option<T>, flag: i32, value: T) -> bool {
    item == if flag != 0 {
        Some(value)
    } else {
        None::<T>
    }
}

impl HdrMetadata {
    /// The three display primaries laid out x, y after x, y.
    pub open spec fn primaries_flattened(p: [[u16; 2]; 3], flat: [u16; 6]) -> bool {
        forall|i: int, j: int|
            0 <= i < 3 && 0 <= j < 2 ==> #[trigger] flat[2 * i + j] == #[trigger] p[i][j]
    }

    /// `ffi` is the C record that carries this metadata.
    pub open spec fn is_written_as(self, ffi: sys::AsdcpHdrMetadata) -> bool {
        &&& is_optional_written(
            self.transfer_characteristic,
            ffi.has_transfer_characteristic,
            ffi.transfer_characteristic,
        )
        &&& (self.transfer_characteristic is None ==> ffi.transfer_characteristic@ == seq![0u8; 16])
        &&& is_optional_written(self.color_primaries, ffi.has_color_primaries, ffi.color_primaries)
        &&& (self.color_primaries is None ==> ffi.color_primaries@ == seq![0u8; 16])
        &&& ffi.has_mastering_display_primaries == crate::c_flag(
            self.mastering_display_primaries is Some,
        )
        &&& match self.mastering_display_primaries {
            Some(p) => HdrMetadata::primaries_flattened(p, ffi.mastering_display_primaries),
            None => ffi.mastering_display_primaries@ == seq![0u16; 6],
        }
        &&& is_optional_written(
            self.mastering_display_white_point,
            ffi.has_mastering_display_white_point,
            ffi.mastering_display_white_point,
        )
        &&& (self.mastering_display_white_point is None ==> ffi.mastering_display_white_point@
            == seq![0u16; 2])
        &&& is_optional_written(
            self.mastering_display_max_luminance,
            ffi.has_mastering_display_max_luminance,
            ffi.mastering_display_max_luminance,
        )
        &&& (self.mastering_display_max_luminance is None ==> ffi.mastering_display_max_luminance
            == 0)
        &&& is_optional_written(
            self.mastering_display_min_luminance,
            ffi.has_mastering_display_min_luminance,
            ffi.mastering_display_min_luminance,
        )
        &&& (self.mastering_display_min_luminance is None ==> ffi.mastering_display_min_luminance
            == 0)
    }

    /// This metadata is what the C record `ffi` carries.
    pub open spec fn is_read_from(self, ffi: sys::AsdcpHdrMetadata) -> bool {
        &&& is_optional_read(
            self.transfer_characteristic,
            ffi.has_transfer_characteristic,
            ffi.transfer_characteristic,
        )
        &&& is_optional_read(self.color_primaries, ffi.has_color_primaries, ffi.color_primaries)
        &&& (self.mastering_display_primaries is Some) == (ffi.has_mastering_display_primaries
            != 0)
        &&& (self.mastering_display_primaries matches Some(p) ==> HdrMetadata::primaries_flattened(
            p,
            ffi.mastering_display_primaries,
        ))
        &&& is_optional_read(
            self.mastering_display_white_point,
            ffi.has_mastering_display_white_point,
            ffi.mastering_display_white_point,
        )
        &&& is_optional_read(
            self.mastering_display_max_luminance,
            ffi.has_mastering_display_max_luminance,
            ffi.mastering_display_max_luminance,
        )
        &&& is_optional_read(
            self.mastering_display_min_luminance,
            ffi.has_mastering_display_min_luminance,
            ffi.mastering_display_min_luminance,
        )
    }

    pub fn to_ffi(&self) -> (ffi: sys::AsdcpHdrMetadata)
        ensures
            self.is_written_as(ffi),
    {
        let p = match self.mastering_display_primaries {
            Some(p) => p,
            None => [[0u16; 2]; 3],
        };
        let flat: [u16; 6] = [p[0][0], p[0][1], p[1][0], p[1][1], p[2][0], p[2][1]];
        let ffi = sys::AsdcpHdrMetadata {
            has_transfer_characteristic: if self.transfer_characteristic.is_some() {
                1
            } else {
                0
            },
            transfer_characteristic: match self.transfer_characteristic {
                Some(v) => v,
                None => [0u8; 16],
            },
            has_color_primaries: if self.color_primaries.is_some() {
                1
            } else {
                0
            },
            color_primaries: match self.color_primaries {
                Some(v) => v,
                None => [0u8; 16],
            },
            has_mastering_display_primaries: if self.mastering_display_primaries.is_some() {
                1
            } else {
                0
            },
            mastering_display_primaries: flat,
            has_mastering_display_white_point: if self.mastering_display_white_point.is_some() {
                1
            } else {
                0
            },
            mastering_display_white_point: match self.mastering_display_white_point {
                Some(v) => v,
                None => [0u16; 2],
            },
            has_mastering_display_max_luminance: if self.mastering_display_max_luminance.is_some() {
                1
            } else {
                0
            },
            mastering_display_max_luminance: match self.mastering_display_max_luminance {
                Some(v) => v,
                None => 0,
            },
            has_mastering_display_min_luminance: if self.mastering_display_min_luminance.is_some() {
                1
            } else {
                0
            },
            mastering_display_min_luminance: match self.mastering_display_min_luminance {
                Some(v) => v,
                None => 0,
            },
        };
        assert(self.mastering_display_primaries is None ==> ffi.mastering_display_primaries@
            =~= seq![0u16; 6]);
        assert(self.transfer_characteristic is None ==> ffi.transfer_characteristic@ =~= seq![0u8; 16]);
        assert(self.color_primaries is None ==> ffi.color_primaries@ =~= seq![0u8; 16]);
        assert(self.mastering_display_white_point is None ==> ffi.mastering_display_white_point@
            =~= seq![0u16; 2]);
        ffi
    }

    pub fn from_ffi(ffi: &sys::AsdcpHdrMetadata) -> (hdr: HdrMetadata)
        ensures
            hdr.is_read_from(*ffi),
    {
        let mp = ffi.mastering_display_primaries;
        let primaries: [[u16; 2]; 3] = [[mp[0], mp[1]], [mp[2], mp[3]], [mp[4], mp[5]]];
        HdrMetadata {
            transfer_characteristic: if ffi.has_transfer_characteristic != 0 {
                Some(ffi.transfer_characteristic)
            } else {
                None
            },
            color_primaries: if ffi.has_color_primaries != 0 {
                Some(ffi.color_primaries)
            } else {
                None
            },
            mastering_display_primaries: if ffi.has_mastering_display_primaries != 0 {
                Some(primaries)
            } else {
                None
            },
            mastering_display_white_point: if ffi.has_mastering_display_white_point != 0 {
                Some(ffi.mastering_display_white_point)
            } else {
                None
            },
            mastering_display_max_luminance: if ffi.has_mastering_display_max_luminance != 0 {
                Some(ffi.mastering_display_max_luminance)
            } else {
                None
            },
            mastering_display_min_luminance: if ffi.has_mastering_display_min_luminance != 0 {
                Some(ffi.mastering_display_min_luminance)
            } else {
                None
            },
        }
    }
}

/// HDR metadata read back from the C record it was written as is the
/// metadata itself: every item set comes back with its value, and every item
/// left unset comes back unset.
pub proof fn lemma_hdr_metadata_roundtrip(
    hdr: HdrMetadata,
    ffi: sys::AsdcpHdrMetadata,
    back: HdrMetadata,
)
    requires
        hdr.is_written_as(ffi),
        back.is_read_from(ffi),
    ensures
        back == hdr,
{
    if let Some(p) = hdr.mastering_display_primaries {
        let q = back.mastering_display_primaries->0;
        assert forall|i: int| 0 <= i < 3 implies q[i] == p[i] by {
            assert(q[i][0] == ffi.mastering_display_primaries[2 * i + 0]);
            assert(p[i][0] == ffi.mastering_display_primaries[2 * i + 0]);
            assert(q[i][1] == ffi.mastering_display_primaries[2 * i + 1]);
            assert(p[i][1] == ffi.mastering_display_primaries[2 * i + 1]);
            assert(q[i] =~= p[i]);
        }
        assert(q =~= p);
    }
}

/// The HDR record carries each item beside its own presence flag: the
/// transfer characteristic in `transfer_characteristic`, the color primaries
/// in `color_primaries`, the display primaries x, y after x, y in
/// `mastering_display_primaries`, the white point, and the maximum and
/// minimum luminance each in the field of the same name, with flag 1 when
/// set and 0 when not; reading gives each item exactly when its own flag is
/// nonzero, from the field of the same name.
pub proof fn lemma_hdr_metadata_record_fields(hdr: HdrMetadata, ffi: sys::AsdcpHdrMetadata)
    ensures
        hdr.is_written_as(ffi) ==> {
            &&& ffi.has_transfer_characteristic == (if hdr.transfer_characteristic is Some { 1i32 } else { 0i32 })
            &&& (hdr.transfer_characteristic matches Some(v) ==> ffi.transfer_characteristic == v)
            &&& ffi.has_color_primaries == (if hdr.color_primaries is Some { 1i32 } else { 0i32 })
            &&& (hdr.color_primaries matches Some(v) ==> ffi.color_primaries == v)
            &&& ffi.has_mastering_display_primaries == (if hdr.mastering_display_primaries is Some { 1i32 } else { 0i32 })
            &&& (hdr.mastering_display_primaries matches Some(p) ==> forall|i: int, j: int|
                0 <= i < 3 && 0 <= j < 2 ==> #[trigger] ffi.mastering_display_primaries[2 * i + j] == #[trigger] p[i][j])
            &&& ffi.has_mastering_display_white_point == (if hdr.mastering_display_white_point is Some { 1i32 } else { 0i32 })
            &&& (hdr.mastering_display_white_point matches Some(v) ==> ffi.mastering_display_white_point == v)
            &&& ffi.has_mastering_display_max_luminance == (if hdr.mastering_display_max_luminance is Some { 1i32 } else { 0i32 })
            &&& (hdr.mastering_display_max_luminance matches Some(v) ==> ffi.mastering_display_max_luminance == v)
            &&& ffi.has_mastering_display_min_luminance == (if hdr.mastering_display_min_luminance is Some { 1i32 } else { 0i32 })
            &&& (hdr.mastering_display_min_luminance matches Some(v) ==> ffi.mastering_display_min_luminance == v)
        },
        hdr.is_read_from(ffi) ==> {
            &&& hdr.transfer_characteristic == (if ffi.has_transfer_characteristic != 0 { Some(ffi.transfer_characteristic) } else { None })
            &&& hdr.color_primaries == (if ffi.has_color_primaries != 0 { Some(ffi.color_primaries) } else { None })
            &&& (hdr.mastering_display_primaries is Some) == (ffi.has_mastering_display_primaries != 0)
            &&& (hdr.mastering_display_primaries matches Some(p) ==> forall|i: int, j: int|
                0 <= i < 3 && 0 <= j < 2 ==> #[trigger] p[i][j] == #[trigger] ffi.mastering_display_primaries[2 * i + j])
            &&& hdr.mastering_display_white_point == (if ffi.has_mastering_display_white_point != 0 { Some(ffi.mastering_display_white_point) } else { None })
            &&& hdr.mastering_display_max_luminance == (if ffi.has_mastering_display_max_luminance != 0 { Some(ffi.mastering_display_max_luminance) } else { None })
            &&& hdr.mastering_display_min_luminance == (if ffi.has_mastering_display_min_luminance != 0 { Some(ffi.mastering_display_min_luminance) } else { None })
        },
{
}

/// Number of precinct size bytes the COD marker can carry (ISO 15444-1 Annex
/// A.6.1), and the width of [`CodingStyleDefault::precinct_sizes`].
pub const MAX_PRECINCT_SIZES: usize = sys::ASDCP_JP2K_MAX_PRECINCT_SIZES;

/// Ssize packs the bit depth minus one in its low 7 bits and the signed flag in
/// the top bit.
const SSIZE_DEPTH_MASK: u8 = 0x7f;

/// One image component of the SIZ marker (ISO 15444-1 Annex A.5.1).
#[derive(Debug, Clone, Copy, PartialEq, Eq, Structural)]
pub struct ImageComponent {
    /// Bit depth minus one in the low 7 bits, signed flag in the top bit.
    pub ssize: u8,
    /// Horizontal separation of the component samples on the reference grid.
    pub x_rsize: u8,
    /// Vertical separation of the component samples on the reference grid.
    pub y_rsize: u8,
}

impl ImageComponent {
    /// The component's precision: the low 7 bits of Ssize, plus one.
    pub open spec fn spec_bit_depth(self) -> int {
        self.ssize % 128 + 1
    }

    /// Whether the component's samples are signed: the top bit of Ssize.
    pub open spec fn spec_is_signed(self) -> bool {
        self.ssize >= 128
    }

    pub fn bit_depth(&self) -> (depth: u8)
        ensures
            depth == self.spec_bit_depth(),
    {
        let s = self.ssize;
        assert(s & 0x7f == s % 128) by (bit_vector);
        (s & SSIZE_DEPTH_MASK) + 1
    }

    pub fn is_signed(&self) -> (signed: bool)
        ensures
            signed == self.spec_is_signed(),
    {
        let s = self.ssize;
        assert((s & !0x7fu8 != 0) == (s >= 128)) by (bit_vector);
        s & !SSIZE_DEPTH_MASK != 0
    }

    /// The C record of this component.
    pub open spec fn spec_to_ffi(self) -> sys::AsdcpImageComponent {
        sys::AsdcpImageComponent { ssize: self.ssize, x_rsize: self.x_rsize, y_rsize: self.y_rsize }
    }

    /// The component a C record carries.
    pub open spec fn spec_from_ffi(ffi: sys::AsdcpImageComponent) -> ImageComponent {
        ImageComponent { ssize: ffi.ssize, x_rsize: ffi.x_rsize, y_rsize: ffi.y_rsize }
    }
}

/// Ssize is exactly its two readings: a component's precision lies in 1 to
/// 128, and Ssize is the precision minus one, plus 128 when signed. So two
/// components of equal precision and signedness have the same Ssize.
pub proof fn lemma_ssize_is_depth_and_sign(c: ImageComponent)
    ensures
        1 <= c.spec_bit_depth() <= 128,
        c.ssize == c.spec_bit_depth() - 1 + (if c.spec_is_signed() {
            128int
        } else {
            0int
        }),
{
}

/// The COD marker segment (ISO 15444-1 Annex A.6.1).
#[derive(Debug, Clone, PartialEq, Eq)]
pub struct CodingStyleDefault {
    pub scod: u8,
    pub progression_order: u8,
    pub number_of_layers: u16,
    pub multi_component_transform: u8,
    pub decomposition_levels: u8,
    pub codeblock_width: u8,
    pub codeblock_height: u8,
    pub codeblock_style: u8,
    pub transformation: u8,
    /// Trailing zeros mean the codestream signalled fewer precinct sizes.
    pub precinct_sizes: [u8; MAX_PRECINCT_SIZES],
}

impl CodingStyleDefault {
    /// `ffi` is the C record of this COD segment, the layer count big-endian.
    pub open spec fn is_written_as(self, ffi: sys::AsdcpCodingStyleDefault) -> bool {
        &&& ffi.scod == self.scod
        &&& ffi.progression_order == self.progression_order
        &&& ffi.number_of_layers[0] == self.number_of_layers / 256
        &&& ffi.number_of_layers[1] == self.number_of_layers % 256
        &&& ffi.multi_component_transform == self.multi_component_transform
        &&& ffi.decomposition_levels == self.decomposition_levels
        &&& ffi.codeblock_width == self.codeblock_width
        &&& ffi.codeblock_height == self.codeblock_height
        &&& ffi.codeblock_style == self.codeblock_style
        &&& ffi.transformation == self.transformation
        &&& ffi.precinct_sizes == self.precinct_sizes
    }

    /// This COD segment is what the C record `ffi` carries.
    pub open spec fn is_read_from(self, ffi: sys::AsdcpCodingStyleDefault) -> bool {
        &&& self.scod == ffi.scod
        &&& self.progression_order == ffi.progression_order
        &&& self.number_of_layers == ffi.number_of_layers[0] * 256 + ffi.number_of_layers[1]
        &&& self.multi_component_transform == ffi.multi_component_transform
        &&& self.decomposition_levels == ffi.decomposition_levels
        &&& self.codeblock_width == ffi.codeblock_width
        &&& self.codeblock_height == ffi.codeblock_height
        &&& self.codeblock_style == ffi.codeblock_style
        &&& self.transformation == ffi.transformation
        &&& self.precinct_sizes == ffi.precinct_sizes
    }

    pub fn to_ffi(&self) -> (ffi: sys::AsdcpCodingStyleDefault)
        ensures
            self.is_written_as(ffi),
    {
        let layers: [u8; 2] = [(self.number_of_layers / 256) as u8, (self.number_of_layers % 256) as u8];
        sys::AsdcpCodingStyleDefault {
            scod: self.scod,
            progression_order: self.progression_order,
            number_of_layers: layers,
            multi_component_transform: self.multi_component_transform,
            decomposition_levels: self.decomposition_levels,
            codeblock_width: self.codeblock_width,
            codeblock_height: self.codeblock_height,
            codeblock_style: self.codeblock_style,
            transformation: self.transformation,
            precinct_sizes: self.precinct_sizes,
        }
    }

    pub fn from_ffi(ffi: &sys::AsdcpCodingStyleDefault) -> (cod: CodingStyleDefault)
        ensures
            cod.is_read_from(*ffi),
    {
        CodingStyleDefault {
            scod: ffi.scod,
            progression_order: ffi.progression_order,
            number_of_layers: (ffi.number_of_layers[0] as u16) * 256 + (ffi.number_of_layers[1] as u16),
            multi_component_transform: ffi.multi_component_transform,
            decomposition_levels: ffi.decomposition_levels,
            codeblock_width: ffi.codeblock_width,
            codeblock_height: ffi.codeblock_height,
            codeblock_style: ffi.codeblock_style,
            transformation: ffi.transformation,
            precinct_sizes: ffi.precinct_sizes,
        }
    }
}

/// The QCD marker segment (ISO 15444-1 Annex A.6.4).
#[derive(Debug, Clone, PartialEq, Eq)]
pub struct QuantizationDefault {
    pub sqcd: u8,
    /// Quantization step sizes, as many as the marker carried.
    pub spqcd: Vec<u8>,
}

/// The CAP marker segment (ISO 15444-1 Annex A.5.2).
#[derive(Debug, Clone, PartialEq, Eq)]
pub struct ExtendedCapabilities {
    pub pcap: u32,
    pub ccap: Vec<u16>,
}

/// The JPEG 2000 codestream header values the MXF
/// `JPEG2000PictureSubDescriptor` carries: the SIZ image and tile grid, the
/// per-component depth and subsampling, and the COD, QCD and CAP marker
/// segments.
#[derive(Debug, Clone, PartialEq, Eq)]
#[non_exhaustive]
pub struct CodestreamHeader {
    /// SIZ Rsize: the profile and level the codestream conforms to.
    pub rsize: u16,
    /// SIZ Xsize and Ysize: the reference grid size.
    pub xsize: u32,
    pub ysize: u32,
    /// SIZ XOsize and YOsize: the image offset within the reference grid.
    pub x_osize: u32,
    pub y_osize: u32,
    /// SIZ XTsize and YTsize: the tile size.
    pub xt_size: u32,
    pub yt_size: u32,
    /// SIZ XTOsize and YTOsize: the first tile's offset.
    pub xt_osize: u32,
    pub yt_osize: u32,
    pub components: Vec<ImageComponent>,
    pub coding_style_default: CodingStyleDefault,
    pub quantization_default: QuantizationDefault,
    /// `None` when the codestream carries no CAP marker.
    pub extended_capabilities: Option<ExtendedCapabilities>,
}

/// The component record that stands for no component.
pub open spec fn empty_component_record() -> sys::AsdcpImageComponent {
    sys::AsdcpImageComponent { ssize: 0, x_rsize: 0, y_rsize: 0 }
}

/// `count` values of `items`, then zeros, fill the fixed-size `slots`.
pub open spec fn fills_then_zero<T>(slots: Seq<T>, items: Seq<T>, zero: T) -> bool {
    forall|i: int|
        0 <= i < slots.len() ==> #[trigger] slots[i] == if i < items.len() {
            items[i]
        } else {
            zero
        }
}

/// Whether a CAP record count is one the header can be read from: no CAP
/// marker, or at most as many entries as the record holds.
pub open spec fn valid_capability_count(count: i8) -> bool {
    count == sys::ASDCP_JP2K_NO_EXTENDED_CAPABILITIES || 0 <= count
        <= sys::ASDCP_JP2K_MAX_CAPABILITIES
}

/// Whether a CAP record count is one the header can be read from.
pub fn capability_count_is_valid(count: i8) -> (ok: bool)
    ensures
        ok == valid_capability_count(count),
{
    count == sys::ASDCP_JP2K_NO_EXTENDED_CAPABILITIES || (0 <= count && (count as usize)
        <= sys::ASDCP_JP2K_MAX_CAPABILITIES)
}

impl CodestreamHeader {
    /// Whether this header fits the C record: the QCD step sizes and CAP
    /// entries fit their arrays (more would not fit; the component count is
    /// written as given and only the first components the record holds are
    /// copied).
    pub open spec fn fits_record(self) -> bool {
        &&& self.quantization_default.spqcd@.len() <= sys::ASDCP_JP2K_MAX_DEFAULTS
        &&& (self.extended_capabilities matches Some(c) ==> c.ccap@.len()
            <= sys::ASDCP_JP2K_MAX_CAPABILITIES)
    }

    /// Whether this header fits the C record, so that
    /// [`CodestreamHeader::to_ffi`] can write it.
    pub fn fits_in_record(&self) -> (ok: bool)
        ensures
            ok == self.fits_record(),
    {
        self.quantization_default.spqcd.len() <= sys::ASDCP_JP2K_MAX_DEFAULTS && match &self.extended_capabilities {
            Some(c) => c.ccap.len() <= sys::ASDCP_JP2K_MAX_CAPABILITIES,
            None => true,
        }
    }

    /// `ffi` is the C record of this header: every value copied, the counts
    /// and lengths written beside them, and the unused slots zero.
    pub open spec fn is_written_as(self, ffi: sys::AsdcpCodestreamHeader) -> bool {
        &&& ffi.rsize == self.rsize
        &&& ffi.xsize == self.xsize
        &&& ffi.ysize == self.ysize
        &&& ffi.x_osize == self.x_osize
        &&& ffi.y_osize == self.y_osize
        &&& ffi.xt_size == self.xt_size
        &&& ffi.yt_size == self.yt_size
        &&& ffi.xt_osize == self.xt_osize
        &&& ffi.yt_osize == self.yt_osize
        &&& ffi.csize == self.components@.len() as u16
        &&& fills_then_zero(
            ffi.image_components@,
            self.components@.map_values(|c: ImageComponent| c.spec_to_ffi()),
            empty_component_record(),
        )
        &&& self.coding_style_default.is_written_as(ffi.coding_style_default)
        &&& ffi.quantization_default.sqcd == self.quantization_default.sqcd
        &&& ffi.quantization_default.spqcd_length == self.quantization_default.spqcd@.len() as u8
        &&& fills_then_zero(ffi.quantization_default.spqcd@, self.quantization_default.spqcd@, 0u8)
        &&& match self.extended_capabilities {
            Some(c) => {
                &&& ffi.extended_capabilities.capability_count == c.ccap@.len() as i8
                &&& ffi.extended_capabilities.pcap == c.pcap
                &&& fills_then_zero(ffi.extended_capabilities.ccap@, c.ccap@, 0u16)
            },
            None => {
                &&& ffi.extended_capabilities.capability_count
                    == sys::ASDCP_JP2K_NO_EXTENDED_CAPABILITIES
                &&& ffi.extended_capabilities.pcap == 0
                &&& fills_then_zero(ffi.extended_capabilities.ccap@, Seq::<u16>::empty(), 0u16)
            },
        }
    }

    /// This header is what the C record `ffi` carries: as many components as
    /// Csize names (at most as many as the record holds), the QCD step sizes
    /// and CAP entries up to their counts, and no CAP marker when the count
    /// says so.
    pub open spec fn is_read_from(self, ffi: sys::AsdcpCodestreamHeader) -> bool {
        &&& self.rsize == ffi.rsize
        &&& self.xsize == ffi.xsize
        &&& self.ysize == ffi.ysize
        &&& self.x_osize == ffi.x_osize
        &&& self.y_osize == ffi.y_osize
        &&& self.xt_size == ffi.xt_size
        &&& self.yt_size == ffi.yt_size
        &&& self.xt_osize == ffi.xt_osize
        &&& self.yt_osize == ffi.yt_osize
        &&& self.components@ == ffi.image_components@.take(
            if ffi.csize <= sys::ASDCP_JP2K_MAX_COMPONENTS {
                ffi.csize as int
            } else {
                sys::ASDCP_JP2K_MAX_COMPONENTS as int
            },
        ).map_values(|r: sys::AsdcpImageComponent| ImageComponent::spec_from_ffi(r))
        &&& self.coding_style_default.is_read_from(ffi.coding_style_default)
        &&& self.quantization_default.sqcd == ffi.quantization_default.sqcd
        &&& self.quantization_default.spqcd@ == ffi.quantization_default.spqcd@.take(
            ffi.quantization_default.spqcd_length as int,
        )
        &&& if ffi.extended_capabilities.capability_count
            == sys::ASDCP_JP2K_NO_EXTENDED_CAPABILITIES {
            self.extended_capabilities is None
        } else {
            &&& self.extended_capabilities is Some
            &&& self.extended_capabilities->0.pcap == ffi.extended_capabilities.pcap
            &&& self.extended_capabilities->0.ccap@ == ffi.extended_capabilities.ccap@.take(
                ffi.extended_capabilities.capability_count as int,
            )
        }
    }

    /// The two headers hold the same values.
    pub open spec fn same_values(self, other: CodestreamHeader) -> bool {
        &&& self.rsize == other.rsize
        &&& self.xsize == other.xsize
        &&& self.ysize == other.ysize
        &&& self.x_osize == other.x_osize
        &&& self.y_osize == other.y_osize
        &&& self.xt_size == other.xt_size
        &&& self.yt_size == other.yt_size
        &&& self.xt_osize == other.xt_osize
        &&& self.yt_osize == other.yt_osize
        &&& self.components@ == other.components@
        &&& self.coding_style_default == other.coding_style_default
        &&& self.quantization_default.sqcd == other.quantization_default.sqcd
        &&& self.quantization_default.spqcd@ == other.quantization_default.spqcd@
        &&& match (self.extended_capabilities, other.extended_capabilities) {
            (None, None) => true,
            (Some(a), Some(b)) => a.pcap == b.pcap && a.ccap@ == b.ccap@,
            _ => false,
        }
    }

    pub fn from_ffi(ffi: &sys::AsdcpCodestreamHeader) -> (header: CodestreamHeader)
        requires
            valid_capability_count(ffi.extended_capabilities.capability_count),
        ensures
            header.is_read_from(*ffi),
    {
        let count: usize = if (ffi.csize as usize) < sys::ASDCP_JP2K_MAX_COMPONENTS {
            ffi.csize as usize
        } else {
            sys::ASDCP_JP2K_MAX_COMPONENTS
        };
        let mut components: Vec<ImageComponent> = Vec::new();
        let mut i: usize = 0;
        while i < count
            invariant
                count <= sys::ASDCP_JP2K_MAX_COMPONENTS,
                i <= count,
                components@ == ffi.image_components@.take(i as int).map_values(
                    |r: sys::AsdcpImageComponent| ImageComponent::spec_from_ffi(r),
                ),
            decreases count - i,
        {
            let r = ffi.image_components[i];
            components.push(ImageComponent { ssize: r.ssize, x_rsize: r.x_rsize, y_rsize: r.y_rsize });
            assert(ffi.image_components@.take(i + 1) == ffi.image_components@.take(i as int).push(
                r,
            ));
            i = i + 1;
        }

        let quantization = &ffi.quantization_default;
        let length = quantization.spqcd_length as usize;
        let mut spqcd: Vec<u8> = Vec::new();
        let mut j: usize = 0;
        while j < length
            invariant
                length == quantization.spqcd_length,
                length <= sys::ASDCP_JP2K_MAX_DEFAULTS,
                j <= length,
                spqcd@ == quantization.spqcd@.take(j as int),
            decreases length - j,
        {
            spqcd.push(quantization.spqcd[j]);
            assert(quantization.spqcd@.take(j + 1) == quantization.spqcd@.take(j as int).push(
                quantization.spqcd@[j as int],
            ));
            j = j + 1;
        }

        let capabilities = &ffi.extended_capabilities;
        let extended_capabilities = if capabilities.capability_count
            == sys::ASDCP_JP2K_NO_EXTENDED_CAPABILITIES {
            None
        } else {
            let n = capabilities.capability_count as usize;
            let mut ccap: Vec<u16> = Vec::new();
            let mut k: usize = 0;
            while k < n
                invariant
                    n == capabilities.capability_count,
                    n <= sys::ASDCP_JP2K_MAX_CAPABILITIES,
                    k <= n,
                    ccap@ == capabilities.ccap@.take(k as int),
                decreases n - k,
            {
                ccap.push(capabilities.ccap[k]);
                assert(capabilities.ccap@.take(k + 1) == capabilities.ccap@.take(k as int).push(
                    capabilities.ccap@[k as int],
                ));
                k = k + 1;
            }
            Some(ExtendedCapabilities { pcap: capabilities.pcap, ccap })
        };

        CodestreamHeader {
            rsize: ffi.rsize,
            xsize: ffi.xsize,
            ysize: ffi.ysize,
            x_osize: ffi.x_osize,
            y_osize: ffi.y_osize,
            xt_size: ffi.xt_size,
            yt_size: ffi.yt_size,
            xt_osize: ffi.xt_osize,
            yt_osize: ffi.yt_osize,
            components,
            coding_style_default: CodingStyleDefault::from_ffi(&ffi.coding_style_default),
            quantization_default: QuantizationDefault { sqcd: quantization.sqcd, spqcd },
            extended_capabilities,
        }
    }

    pub fn to_ffi(&self) -> (ffi: sys::AsdcpCodestreamHeader)
        requires
            self.fits_record(),
        ensures
            self.is_written_as(ffi),
    {
        let mut image_components = [sys::AsdcpImageComponent { ssize: 0, x_rsize: 0, y_rsize: 0 };
            sys::ASDCP_JP2K_MAX_COMPONENTS];
        let ghost written = self.components@.map_values(|c: ImageComponent| c.spec_to_ffi());
        let n = self.components.len();
        let mut i: usize = 0;
        while i < n && i < sys::ASDCP_JP2K_MAX_COMPONENTS
            invariant
                n == self.components@.len(),
                written == self.components@.map_values(|c: ImageComponent| c.spec_to_ffi()),
                i <= n,
                i <= sys::ASDCP_JP2K_MAX_COMPONENTS,
                forall|k: int|
                    0 <= k < sys::ASDCP_JP2K_MAX_COMPONENTS ==> #[trigger] image_components@[k]
                        == if k < i {
                        written[k]
                    } else {
                        empty_component_record()
                    },
            decreases n - i,
        {
            let c = self.components[i];
            image_components[i] = sys::AsdcpImageComponent {
                ssize: c.ssize,
                x_rsize: c.x_rsize,
                y_rsize: c.y_rsize,
            };
            i = i + 1;
        }

        let steps = &self.quantization_default.spqcd;
        let mut spqcd = [0u8; sys::ASDCP_JP2K_MAX_DEFAULTS];
        let mut j: usize = 0;
        while j < steps.len()
            invariant
                steps@.len() <= sys::ASDCP_JP2K_MAX_DEFAULTS,
                j <= steps@.len(),
                forall|k: int|
                    0 <= k < sys::ASDCP_JP2K_MAX_DEFAULTS ==> #[trigger] spqcd@[k] == if k < j {
                        steps@[k]
                    } else {
                        0u8
                    },
            decreases steps@.len() - j,
        {
            spqcd[j] = steps[j];
            j = j + 1;
        }

        let mut ccap = [0u16; sys::ASDCP_JP2K_MAX_CAPABILITIES];
        let mut pcap: u32 = 0;
        let mut capability_count: i8 = sys::ASDCP_JP2K_NO_EXTENDED_CAPABILITIES;
        match &self.extended_capabilities {
            Some(capabilities) => {
                let entries = &capabilities.ccap;
                let mut k: usize = 0;
                while k < entries.len()
                    invariant
                        entries@.len() <= sys::ASDCP_JP2K_MAX_CAPABILITIES,
                        k <= entries@.len(),
                        forall|m: int|
                            0 <= m < sys::ASDCP_JP2K_MAX_CAPABILITIES ==> #[trigger] ccap@[m]
                                == if m < k {
                                entries@[m]
                            } else {
                                0u16
                            },
                    decreases entries@.len() - k,
                {
                    ccap[k] = entries[k];
                    k = k + 1;
                }
                pcap = capabilities.pcap;
                capability_count = entries.len() as i8;
            },
            None => {},
        }

        let ffi = sys::AsdcpCodestreamHeader {
            rsize: self.rsize,
            xsize: self.xsize,
            ysize: self.ysize,
            x_osize: self.x_osize,
            y_osize: self.y_osize,
            xt_size: self.xt_size,
            yt_size: self.yt_size,
            xt_osize: self.xt_osize,
            yt_osize: self.yt_osize,
            csize: n as u16,
            image_components,
            coding_style_default: self.coding_style_default.to_ffi(),
            quantization_default: sys::AsdcpQuantizationDefault {
                sqcd: self.quantization_default.sqcd,
                spqcd,
                spqcd_length: steps.len() as u8,
            },
            extended_capabilities: sys::AsdcpExtendedCapabilities { pcap, capability_count, ccap },
        };
        ffi
    }
}

/// A codestream header read back from the C record it was written as holds
/// the header's own values: SIZ, components, COD, QCD and CAP all survive.
/// This holds for every header whose components, QCD step sizes and CAP
/// entries the record has room and count for.
pub proof fn lemma_codestream_header_roundtrip(
    header: CodestreamHeader,
    ffi: sys::AsdcpCodestreamHeader,
    back: CodestreamHeader,
)
    requires
        header.components@.len() <= sys::ASDCP_JP2K_MAX_COMPONENTS,
        header.quantization_default.spqcd@.len() < sys::ASDCP_JP2K_MAX_DEFAULTS,
        header.extended_capabilities matches Some(c) ==> c.ccap@.len()
            <= sys::ASDCP_JP2K_MAX_CAPABILITIES,
        header.is_written_as(ffi),
        back.is_read_from(ffi),
    ensures
        back.same_values(header),
{
    let n = header.components@.len();
    assert(ffi.csize == n);
    let written = header.components@.map_values(|c: ImageComponent| c.spec_to_ffi());
    assert(back.components@ =~= header.components@) by {
        assert forall|i: int| 0 <= i < n implies back.components@[i] == header.components@[i] by {
            assert(ffi.image_components@[i] == written[i]);
        }
    }
    let steps = header.quantization_default.spqcd@;
    assert(back.quantization_default.spqcd@ =~= steps) by {
        assert forall|i: int| 0 <= i < steps.len() implies back.quantization_default.spqcd@[i]
            == steps[i] by {
            assert(ffi.quantization_default.spqcd@[i] == steps[i]);
        }
    }
    assert(back.coding_style_default.precinct_sizes =~= header.coding_style_default.precinct_sizes);
    if let Some(c) = header.extended_capabilities {
        let d = back.extended_capabilities->0;
        assert(d.ccap@ =~= c.ccap@) by {
            assert forall|i: int| 0 <= i < c.ccap@.len() implies d.ccap@[i] == c.ccap@[i] by {
                assert(ffi.extended_capabilities.ccap@[i] == c.ccap@[i]);
            }
        }
    }
}

/// The codestream header record carries each SIZ value in the field of the
/// same name, Csize as the component count, each of the first components
/// (as many as the record holds) with its Ssize, XRsize and YRsize in the
/// fields of the same names, the COD values with the layer count big-endian,
/// the QCD style, step count and step sizes in order, and the CAP Pcap,
/// entry count and entries in order (or the no-CAP count when there is no
/// CAP marker).
pub proof fn lemma_codestream_header_written_fields(header: CodestreamHeader, ffi: sys::AsdcpCodestreamHeader)
    requires
        header.is_written_as(ffi),
    ensures
        ffi.rsize == header.rsize,
        ffi.xsize == header.xsize,
        ffi.ysize == header.ysize,
        ffi.x_osize == header.x_osize,
        ffi.y_osize == header.y_osize,
        ffi.xt_size == header.xt_size,
        ffi.yt_size == header.yt_size,
        ffi.xt_osize == header.xt_osize,
        ffi.yt_osize == header.yt_osize,
        ffi.csize == header.components@.len() as u16,
        forall|i: int|
            0 <= i < header.components@.len() && i < sys::ASDCP_JP2K_MAX_COMPONENTS ==> {
                &&& (#[trigger] ffi.image_components[i]).ssize == header.components@[i].ssize
                &&& ffi.image_components[i].x_rsize == header.components@[i].x_rsize
                &&& ffi.image_components[i].y_rsize == header.components@[i].y_rsize
            },
        ffi.coding_style_default.scod == header.coding_style_default.scod,
        ffi.coding_style_default.progression_order == header.coding_style_default.progression_order,
        ffi.coding_style_default.number_of_layers[0] == header.coding_style_default.number_of_layers / 256,
        ffi.coding_style_default.number_of_layers[1] == header.coding_style_default.number_of_layers % 256,
        ffi.coding_style_default.multi_component_transform
            == header.coding_style_default.multi_component_transform,
        ffi.coding_style_default.decomposition_levels == header.coding_style_default.decomposition_levels,
        ffi.coding_style_default.codeblock_width == header.coding_style_default.codeblock_width,
        ffi.coding_style_default.codeblock_height == header.coding_style_default.codeblock_height,
        ffi.coding_style_default.codeblock_style == header.coding_style_default.codeblock_style,
        ffi.coding_style_default.transformation == header.coding_style_default.transformation,
        ffi.coding_style_default.precinct_sizes == header.coding_style_default.precinct_sizes,
        ffi.quantization_default.sqcd == header.quantization_default.sqcd,
        ffi.quantization_default.spqcd_length == header.quantization_default.spqcd@.len() as u8,
        forall|i: int|
            0 <= i < header.quantization_default.spqcd@.len() && i < sys::ASDCP_JP2K_MAX_DEFAULTS
                ==> #[trigger] ffi.quantization_default.spqcd[i] == header.quantization_default.spqcd@[i],
        header.extended_capabilities is None ==> ffi.extended_capabilities.capability_count == -1i8,
        header.extended_capabilities matches Some(c) ==> {
            &&& ffi.extended_capabilities.pcap == c.pcap
            &&& ffi.extended_capabilities.capability_count == c.ccap@.len() as i8
            &&& forall|i: int|
                0 <= i < c.ccap@.len() && i < sys::ASDCP_JP2K_MAX_CAPABILITIES
                    ==> #[trigger] ffi.extended_capabilities.ccap[i] == c.ccap@[i]
        },
{
    assert forall|i: int|
        0 <= i < header.components@.len() && i < sys::ASDCP_JP2K_MAX_COMPONENTS implies {
            &&& (#[trigger] ffi.image_components[i]).ssize == header.components@[i].ssize
            &&& ffi.image_components[i].x_rsize == header.components@[i].x_rsize
            &&& ffi.image_components[i].y_rsize == header.components@[i].y_rsize
        } by {
        assert(ffi.image_components@[i] == header.components@.map_values(
            |c: ImageComponent| c.spec_to_ffi(),
        )[i]);
    }
    assert forall|i: int|
        0 <= i < header.quantization_default.spqcd@.len() && i < sys::ASDCP_JP2K_MAX_DEFAULTS
            implies #[trigger] ffi.quantization_default.spqcd[i] == header.quantization_default.spqcd@[i] by {
        assert(ffi.quantization_default.spqcd@[i] == header.quantization_default.spqcd@[i]);
    }
    if let Some(c) = header.extended_capabilities {
        assert forall|i: int|
            0 <= i < c.ccap@.len() && i < sys::ASDCP_JP2K_MAX_CAPABILITIES
                implies #[trigger] ffi.extended_capabilities.ccap[i] == c.ccap@[i] by {
            assert(ffi.extended_capabilities.ccap@[i] == c.ccap@[i]);
        }
    }
}

/// A codestream header read from a record takes each SIZ value from the
/// field of the same name, as many components as Csize names (at most as
/// many as the record holds) each with its Ssize, XRsize and YRsize from the
/// fields of the same names, the COD values with the layer count read
/// big-endian, the QCD style and as many step sizes as the step count names,
/// and the CAP marker exactly when the count is not the no-CAP count, with
/// its Pcap and as many entries as the count names.
pub proof fn lemma_codestream_header_read_fields(header: CodestreamHeader, ffi: sys::AsdcpCodestreamHeader)
    requires
        header.is_read_from(ffi),
        valid_capability_count(ffi.extended_capabilities.capability_count),
    ensures
        header.rsize == ffi.rsize,
        header.xsize == ffi.xsize,
        header.ysize == ffi.ysize,
        header.x_osize == ffi.x_osize,
        header.y_osize == ffi.y_osize,
        header.xt_size == ffi.xt_size,
        header.yt_size == ffi.yt_size,
        header.xt_osize == ffi.xt_osize,
        header.yt_osize == ffi.yt_osize,
        header.components@.len() == if ffi.csize <= 4 { ffi.csize as int } else { 4 },
        forall|i: int|
            0 <= i < header.components@.len() ==> {
                &&& (#[trigger] header.components@[i]).ssize == ffi.image_components[i].ssize
                &&& header.components@[i].x_rsize == ffi.image_components[i].x_rsize
                &&& header.components@[i].y_rsize == ffi.image_components[i].y_rsize
            },
        header.coding_style_default.scod == ffi.coding_style_default.scod,
        header.coding_style_default.progression_order == ffi.coding_style_default.progression_order,
        header.coding_style_default.number_of_layers == ffi.coding_style_default.number_of_layers[0]
            * 256 + ffi.coding_style_default.number_of_layers[1],
        header.coding_style_default.multi_component_transform
            == ffi.coding_style_default.multi_component_transform,
        header.coding_style_default.decomposition_levels == ffi.coding_style_default.decomposition_levels,
        header.coding_style_default.codeblock_width == ffi.coding_style_default.codeblock_width,
        header.coding_style_default.codeblock_height == ffi.coding_style_default.codeblock_height,
        header.coding_style_default.codeblock_style == ffi.coding_style_default.codeblock_style,
        header.coding_style_default.transformation == ffi.coding_style_default.transformation,
        header.coding_style_default.precinct_sizes == ffi.coding_style_default.precinct_sizes,
        header.quantization_default.sqcd == ffi.quantization_default.sqcd,
        header.quantization_default.spqcd@.len() == ffi.quantization_default.spqcd_length,
        forall|i: int|
            0 <= i < header.quantization_default.spqcd@.len()
                ==> #[trigger] header.quantization_default.spqcd@[i] == ffi.quantization_default.spqcd[i],
        (header.extended_capabilities is None) == (ffi.extended_capabilities.capability_count == -1i8),
        header.extended_capabilities matches Some(c) ==> {
            &&& c.pcap == ffi.extended_capabilities.pcap
            &&& c.ccap@.len() == ffi.extended_capabilities.capability_count
            &&& forall|i: int|
                0 <= i < c.ccap@.len() ==> #[trigger] c.ccap@[i] == ffi.extended_capabilities.ccap[i]
        },
{
}

/// The picture descriptor record carries the edit rate, sample rate, stored
/// width, stored height, aspect ratio and container duration each in the
/// field of the same name (each rate as the same numerator and denominator),
/// and the codestream header in `codestream`.
pub proof fn lemma_picture_descriptor_written_fields(desc: PictureDescriptor, ffi: sys::AsdcpPictureDescriptor)
    requires
        desc.is_written_as(ffi),
    ensures
        ffi.edit_rate.numerator == desc.edit_rate.numerator,
        ffi.edit_rate.denominator == desc.edit_rate.denominator,
        ffi.sample_rate.numerator == desc.sample_rate.numerator,
        ffi.sample_rate.denominator == desc.sample_rate.denominator,
        ffi.stored_width == desc.stored_width,
        ffi.stored_height == desc.stored_height,
        ffi.aspect_ratio.numerator == desc.aspect_ratio.numerator,
        ffi.aspect_ratio.denominator == desc.aspect_ratio.denominator,
        ffi.container_duration == desc.container_duration,
        ffi.codestream.rsize == desc.codestream.rsize,
        ffi.codestream.xsize == desc.codestream.xsize,
        ffi.codestream.ysize == desc.codestream.ysize,
{
    lemma_codestream_header_written_fields(desc.codestream, ffi.codestream);
}

/// A picture descriptor read from a record takes the edit rate, sample rate,
/// stored width, stored height, aspect ratio and container duration each
/// from the field of the same name, and the codestream header from
/// `codestream`.
pub proof fn lemma_picture_descriptor_read_fields(desc: PictureDescriptor, ffi: sys::AsdcpPictureDescriptor)
    requires
        desc.is_read_from(ffi),
        valid_capability_count(ffi.codestream.extended_capabilities.capability_count),
    ensures
        desc.edit_rate.numerator == ffi.edit_rate.numerator,
        desc.edit_rate.denominator == ffi.edit_rate.denominator,
        desc.sample_rate.numerator == ffi.sample_rate.numerator,
        desc.sample_rate.denominator == ffi.sample_rate.denominator,
        desc.stored_width == ffi.stored_width,
        desc.stored_height == ffi.stored_height,
        desc.aspect_ratio.numerator == ffi.aspect_ratio.numerator,
        desc.aspect_ratio.denominator == ffi.aspect_ratio.denominator,
        desc.container_duration == ffi.container_duration,
        desc.codestream.rsize == ffi.codestream.rsize,
        desc.codestream.xsize == ffi.codestream.xsize,
        desc.codestream.ysize == ffi.codestream.ysize,
{
    lemma_codestream_header_read_fields(desc.codestream, ffi.codestream);
}

/// JPEG 2000 picture descriptor.
#[derive(Debug, Clone)]
pub struct PictureDescriptor {
    pub edit_rate: Rational,
    pub sample_rate: Rational,
    pub stored_width: u32,
    pub stored_height: u32,
    pub aspect_ratio: Rational,
    pub container_duration: u32,
    /// Parsed from the essence's first frame, so the MXF sub-descriptor
    /// describes the codestream that is actually wrapped.
    pub codestream: CodestreamHeader,
}

impl PictureDescriptor {
    /// `ffi` is the C record of this descriptor.
    pub open spec fn is_written_as(self, ffi: sys::AsdcpPictureDescriptor) -> bool {
        &&& ffi.edit_rate == self.edit_rate.spec_to_ffi()
        &&& ffi.sample_rate == self.sample_rate.spec_to_ffi()
        &&& ffi.stored_width == self.stored_width
        &&& ffi.stored_height == self.stored_height
        &&& ffi.aspect_ratio == self.aspect_ratio.spec_to_ffi()
        &&& ffi.container_duration == self.container_duration
        &&& self.codestream.is_written_as(ffi.codestream)
    }

    /// This descriptor is what the C record `ffi` carries.
    pub open spec fn is_read_from(self, ffi: sys::AsdcpPictureDescriptor) -> bool {
        &&& self.edit_rate == Rational::spec_from_ffi(ffi.edit_rate)
        &&& self.sample_rate == Rational::spec_from_ffi(ffi.sample_rate)
        &&& self.stored_width == ffi.stored_width
        &&& self.stored_height == ffi.stored_height
        &&& self.aspect_ratio == Rational::spec_from_ffi(ffi.aspect_ratio)
        &&& self.container_duration == ffi.container_duration
        &&& self.codestream.is_read_from(ffi.codestream)
    }

    pub fn to_ffi(&self) -> (ffi: sys::AsdcpPictureDescriptor)
        requires
            self.codestream.fits_record(),
        ensures
            self.is_written_as(ffi),
    {
        sys::AsdcpPictureDescriptor {
            edit_rate: self.edit_rate.to_ffi(),
            sample_rate: self.sample_rate.to_ffi(),
            stored_width: self.stored_width,
            stored_height: self.stored_height,
            aspect_ratio: self.aspect_ratio.to_ffi(),
            container_duration: self.container_duration,
            codestream: self.codestream.to_ffi(),
        }
    }

    pub fn from_ffi(ffi: &sys::AsdcpPictureDescriptor) -> (desc: PictureDescriptor)
        requires
            valid_capability_count(ffi.codestream.extended_capabilities.capability_count),
        ensures
            desc.is_read_from(*ffi),
    {
        PictureDescriptor {
            edit_rate: Rational::from_ffi(&ffi.edit_rate),
            sample_rate: Rational::from_ffi(&ffi.sample_rate),
            stored_width: ffi.stored_width,
            stored_height: ffi.stored_height,
            aspect_ratio: Rational::from_ffi(&ffi.aspect_ratio),
            container_duration: ffi.container_duration,
            codestream: CodestreamHeader::from_ffi(&ffi.codestream),
        }
    }
}

/// A picture descriptor read back from the C record it was written as holds
/// the descriptor's own values, its codestream header included, for every
/// header the record has room and count for.
pub proof fn lemma_picture_descriptor_roundtrip(
    desc: PictureDescriptor,
    ffi: sys::AsdcpPictureDescriptor,
    back: PictureDescriptor,
)
    requires
        desc.codestream.components@.len() <= sys::ASDCP_JP2K_MAX_COMPONENTS,
        desc.codestream.quantization_default.spqcd@.len() < sys::ASDCP_JP2K_MAX_DEFAULTS,
        desc.codestream.extended_capabilities matches Some(c) ==> c.ccap@.len()
            <= sys::ASDCP_JP2K_MAX_CAPABILITIES,
        desc.is_written_as(ffi),
        back.is_read_from(ffi),
    ensures
        back.edit_rate == desc.edit_rate,
        back.sample_rate == desc.sample_rate,
        back.stored_width == desc.stored_width,
        back.stored_height == desc.stored_height,
        back.aspect_ratio == desc.aspect_ratio,
        back.container_duration == desc.container_duration,
        back.codestream.same_values(desc.codestream),
{
    lemma_codestream_header_roundtrip(desc.codestream, ffi.codestream, back.codestream);
}

/// Stereoscopic phase.
#[derive(Debug, Clone, Copy, PartialEq, Eq, Structural)]
pub enum StereoscopicPhase {
    Left,
    Right,
}

impl StereoscopicPhase {
    /// The phase's number in the C interface: 0 for the left eye, 1 for the
    /// right.
    pub fn code(self) -> (code: i32)
        ensures
            code == (if self == StereoscopicPhase::Left {
                0i32
            } else {
                1i32
            }),
    {
        match self {
            StereoscopicPhase::Left => 0,
            StereoscopicPhase::Right => 1,
        }
    }
}

} // verus!
