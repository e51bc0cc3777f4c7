//! AS-02 JPEG 2000 (frame-wrapped) picture descriptors.
use vstd::prelude::*;

use crate::jp2k::{is_optional_read, ExtendedCapabilities, HdrMetadata};
use crate::sys;
use crate::Rational;

verus! {

/// `Some(value)` when the C presence flag is set, `None` otherwise.
pub fn optional<T>(has_value: i32, value: T) -> (item: Option<T>)
    ensures
        is_optional_read(item, has_value, value),
{
    if has_value != 0 {
        Some(value)
    } else {
        None
    }
}

/// The first `count` entries of a C record's fixed-size array.
pub fn prefix<T: Copy, const N: usize>(items: &[T; N], count: usize) -> (v: Vec<T>)
    requires
        count <= N,
    ensures
        v@ == items@.take(count as int),
{
    let mut v: Vec<T> = Vec::new();
    let mut i: usize = 0;
    while i < count
        invariant
            count <= N,
            i <= count,
            v@ == items@.take(i as int),
        decreases count - i,
    {
        v.push(items[i]);
        assert(items@.take(i + 1) == items@.take(i as int).push(items@[i as int]));
        i = i + 1;
    }
    v
}

/// The RGBA essence descriptor properties an IMF picture track carries
/// beyond the shared [`crate::jp2k::PictureDescriptor`]. The writer derives
/// all of them from the codestream header.
#[derive(Debug, Clone, Copy, PartialEq, Eq)]
pub struct RgbaDescriptor {
    /// The profile label, e.g. [`crate::jp2k::PICTURE_ESSENCE_CODING_IMF_4K_LOSSY`].
    pub picture_essence_coding: Option<[u8; 16]>,
    /// SMPTE 377 pixel layout: component code and bit depth pairs,
    /// zero-terminated.
    pub pixel_layout: [u8; 16],
    pub component_max_ref: Option<u32>,
    pub component_min_ref: Option<u32>,
}

impl RgbaDescriptor {
    /// This descriptor is what the C record `ffi` carries.
    pub open spec fn is_read_from(self, ffi: sys::AsdcpRgbaDescriptor) -> bool {
        &&& is_optional_read(
            self.picture_essence_coding,
            ffi.has_picture_essence_coding,
            ffi.picture_essence_coding,
        )
        &&& self.pixel_layout == ffi.pixel_layout
        &&& is_optional_read(self.component_max_ref, ffi.has_component_max_ref, ffi.component_max_ref)
        &&& is_optional_read(self.component_min_ref, ffi.has_component_min_ref, ffi.component_min_ref)
    }

    pub fn from_ffi(ffi: &sys::AsdcpRgbaDescriptor) -> (desc: RgbaDescriptor)
        ensures
            desc.is_read_from(*ffi),
    {
        RgbaDescriptor {
            picture_essence_coding: optional(
                ffi.has_picture_essence_coding,
                ffi.picture_essence_coding,
            ),
            pixel_layout: ffi.pixel_layout,
            component_max_ref: optional(ffi.has_component_max_ref, ffi.component_max_ref),
            component_min_ref: optional(ffi.has_component_min_ref, ffi.component_min_ref),
        }
    }
}

/// Every item of the MXF `RGBAEssenceDescriptor` an AS-02 JP2K picture track
/// carries, including the ones its `FileDescriptor` and
/// `GenericPictureEssenceDescriptor` bases define. An IMF CPL
/// EssenceDescriptorList entry has to repeat all of them.
#[derive(Debug, Clone, PartialEq, Eq)]
pub struct RgbaEssenceDescriptor {
    pub instance_id: [u8; 16],
    pub generation_id: Option<[u8; 16]>,
    pub locators: Vec<[u8; 16]>,
    /// InstanceIDs of the sub-descriptors, the JPEG 2000 one among them.
    pub sub_descriptors: Vec<[u8; 16]>,
    pub linked_track_id: Option<u32>,
    pub sample_rate: Rational,
    /// ContainerDuration, which a CPL repeats as EssenceLength.
    pub container_duration: Option<u64>,
    /// EssenceContainer, which a CPL repeats as ContainerFormat.
    pub essence_container: [u8; 16],
    pub codec: Option<[u8; 16]>,
    pub signal_standard: Option<u8>,
    pub frame_layout: u8,
    pub stored_width: u32,
    pub stored_height: u32,
    pub stored_f2_offset: Option<u32>,
    pub sampled_width: Option<u32>,
    pub sampled_height: Option<u32>,
    pub sampled_x_offset: Option<u32>,
    pub sampled_y_offset: Option<u32>,
    pub display_height: Option<u32>,
    pub display_width: Option<u32>,
    pub display_x_offset: Option<u32>,
    pub display_y_offset: Option<u32>,
    pub display_f2_offset: Option<u32>,
    /// AspectRatio, which a CPL repeats as ImageAspectRatio.
    pub aspect_ratio: Rational,
    pub active_format_descriptor: Option<u8>,
    pub alpha_transparency: Option<u8>,
    pub image_alignment_offset: Option<u32>,
    pub image_start_offset: Option<u32>,
    pub image_end_offset: Option<u32>,
    pub field_dominance: Option<u8>,
    /// PictureEssenceCoding, which a CPL repeats as PictureCompression.
    pub picture_essence_coding: [u8; 16],
    pub coding_equations: Option<[u8; 16]>,
    pub alternative_center_cuts: Vec<[u8; 16]>,
    pub active_width: Option<u32>,
    pub active_height: Option<u32>,
    pub active_x_offset: Option<u32>,
    pub active_y_offset: Option<u32>,
    /// First and second line of the VideoLineMap pair.
    pub video_line_map: Option<[u32; 2]>,
    /// TransferCharacteristic, ColorPrimaries and the ST 2086 mastering
    /// display block, all of which sit on the same descriptor.
    pub hdr: HdrMetadata,
    pub component_max_ref: Option<u32>,
    pub component_min_ref: Option<u32>,
    pub alpha_min_ref: Option<u32>,
    pub alpha_max_ref: Option<u32>,
    pub scanning_direction: Option<u8>,
    /// SMPTE 377 component code and bit depth pairs, zero-terminated.
    pub pixel_layout: [u8; 16],
}

impl RgbaEssenceDescriptor {
    /// This descriptor is what the C record `ffi` carries: every item copied,
    /// each optional item present exactly when its flag is set, and each list
    /// cut to its count.
    pub open spec fn is_read_from(self, ffi: sys::AsdcpRgbaEssenceDescriptor) -> bool {
        &&& self.instance_id == ffi.instance_id
        &&& is_optional_read(self.generation_id, ffi.has_generation_id, ffi.generation_id)
        &&& self.locators@ == ffi.locators@.take(ffi.locator_count as int)
        &&& self.sub_descriptors@ == ffi.sub_descriptors@.take(ffi.sub_descriptor_count as int)
        &&& is_optional_read(self.linked_track_id, ffi.has_linked_track_id, ffi.linked_track_id)
        &&& self.sample_rate == Rational::spec_from_ffi(ffi.sample_rate)
        &&& is_optional_read(self.container_duration, ffi.has_container_duration, ffi.container_duration)
        &&& self.essence_container == ffi.essence_container
        &&& is_optional_read(self.codec, ffi.has_codec, ffi.codec)
        &&& is_optional_read(self.signal_standard, ffi.has_signal_standard, ffi.signal_standard)
        &&& self.frame_layout == ffi.frame_layout
        &&& self.stored_width == ffi.stored_width
        &&& self.stored_height == ffi.stored_height
        &&& is_optional_read(self.stored_f2_offset, ffi.has_stored_f2_offset, ffi.stored_f2_offset)
        &&& is_optional_read(self.sampled_width, ffi.has_sampled_width, ffi.sampled_width)
        &&& is_optional_read(self.sampled_height, ffi.has_sampled_height, ffi.sampled_height)
        &&& is_optional_read(self.sampled_x_offset, ffi.has_sampled_x_offset, ffi.sampled_x_offset)
        &&& is_optional_read(self.sampled_y_offset, ffi.has_sampled_y_offset, ffi.sampled_y_offset)
        &&& is_optional_read(self.display_height, ffi.has_display_height, ffi.display_height)
        &&& is_optional_read(self.display_width, ffi.has_display_width, ffi.display_width)
        &&& is_optional_read(self.display_x_offset, ffi.has_display_x_offset, ffi.display_x_offset)
        &&& is_optional_read(self.display_y_offset, ffi.has_display_y_offset, ffi.display_y_offset)
        &&& is_optional_read(self.display_f2_offset, ffi.has_display_f2_offset, ffi.display_f2_offset)
        &&& self.aspect_ratio == Rational::spec_from_ffi(ffi.aspect_ratio)
        &&& is_optional_read(self.active_format_descriptor, ffi.has_active_format_descriptor, ffi.active_format_descriptor)
        &&& is_optional_read(self.alpha_transparency, ffi.has_alpha_transparency, ffi.alpha_transparency)
        &&& is_optional_read(self.image_alignment_offset, ffi.has_image_alignment_offset, ffi.image_alignment_offset)
        &&& is_optional_read(self.image_start_offset, ffi.has_image_start_offset, ffi.image_start_offset)
        &&& is_optional_read(self.image_end_offset, ffi.has_image_end_offset, ffi.image_end_offset)
        &&& is_optional_read(self.field_dominance, ffi.has_field_dominance, ffi.field_dominance)
        &&& self.picture_essence_coding == ffi.picture_essence_coding
        &&& is_optional_read(self.coding_equations, ffi.has_coding_equations, ffi.coding_equations)
        &&& self.alternative_center_cuts@ == ffi.alternative_center_cuts@.take(ffi.alternative_center_cut_count as int)
        &&& is_optional_read(self.active_width, ffi.has_active_width, ffi.active_width)
        &&& is_optional_read(self.active_height, ffi.has_active_height, ffi.active_height)
        &&& is_optional_read(self.active_x_offset, ffi.has_active_x_offset, ffi.active_x_offset)
        &&& is_optional_read(self.active_y_offset, ffi.has_active_y_offset, ffi.active_y_offset)
        &&& is_optional_read(self.video_line_map, ffi.has_video_line_map, ffi.video_line_map)
        &&& self.hdr.is_read_from(ffi.hdr)
        &&& is_optional_read(self.component_max_ref, ffi.has_component_max_ref, ffi.component_max_ref)
        &&& is_optional_read(self.component_min_ref, ffi.has_component_min_ref, ffi.component_min_ref)
        &&& is_optional_read(self.alpha_min_ref, ffi.has_alpha_min_ref, ffi.alpha_min_ref)
        &&& is_optional_read(self.alpha_max_ref, ffi.has_alpha_max_ref, ffi.alpha_max_ref)
        &&& is_optional_read(self.scanning_direction, ffi.has_scanning_direction, ffi.scanning_direction)
        &&& self.pixel_layout == ffi.pixel_layout
    }

    /// Whether every list count of the C record is within its array.
    pub open spec fn spec_readable(ffi: sys::AsdcpRgbaEssenceDescriptor) -> bool {
        &&& ffi.locator_count <= sys::ASDCP_MAX_LOCATORS
        &&& ffi.sub_descriptor_count <= sys::ASDCP_MAX_SUB_DESCRIPTORS
        &&& ffi.alternative_center_cut_count <= sys::ASDCP_MAX_ALTERNATIVE_CENTER_CUTS
    }

    /// Whether every list count of the C record is within its array, so
    /// that [`RgbaEssenceDescriptor::from_ffi`] can read it.
    pub fn readable(ffi: &sys::AsdcpRgbaEssenceDescriptor) -> (ok: bool)
        ensures
            ok == RgbaEssenceDescriptor::spec_readable(*ffi),
    {
        (ffi.locator_count as usize) <= sys::ASDCP_MAX_LOCATORS && (ffi.sub_descriptor_count as usize)
            <= sys::ASDCP_MAX_SUB_DESCRIPTORS && (ffi.alternative_center_cut_count as usize)
            <= sys::ASDCP_MAX_ALTERNATIVE_CENTER_CUTS
    }

    pub fn from_ffi(ffi: &sys::AsdcpRgbaEssenceDescriptor) -> (desc: RgbaEssenceDescriptor)
        requires
            RgbaEssenceDescriptor::spec_readable(*ffi),
        ensures
            desc.is_read_from(*ffi),
    {
        RgbaEssenceDescriptor {
            instance_id: ffi.instance_id,
            generation_id: optional(ffi.has_generation_id, ffi.generation_id),
            locators: prefix(&ffi.locators, ffi.locator_count as usize),
            sub_descriptors: prefix(&ffi.sub_descriptors, ffi.sub_descriptor_count as usize),
            linked_track_id: optional(ffi.has_linked_track_id, ffi.linked_track_id),
            sample_rate: Rational::from_ffi(&ffi.sample_rate),
            container_duration: optional(ffi.has_container_duration, ffi.container_duration),
            essence_container: ffi.essence_container,
            codec: optional(ffi.has_codec, ffi.codec),
            signal_standard: optional(ffi.has_signal_standard, ffi.signal_standard),
            frame_layout: ffi.frame_layout,
            stored_width: ffi.stored_width,
            stored_height: ffi.stored_height,
            stored_f2_offset: optional(ffi.has_stored_f2_offset, ffi.stored_f2_offset),
            sampled_width: optional(ffi.has_sampled_width, ffi.sampled_width),
            sampled_height: optional(ffi.has_sampled_height, ffi.sampled_height),
            sampled_x_offset: optional(ffi.has_sampled_x_offset, ffi.sampled_x_offset),
            sampled_y_offset: optional(ffi.has_sampled_y_offset, ffi.sampled_y_offset),
            display_height: optional(ffi.has_display_height, ffi.display_height),
            display_width: optional(ffi.has_display_width, ffi.display_width),
            display_x_offset: optional(ffi.has_display_x_offset, ffi.display_x_offset),
            display_y_offset: optional(ffi.has_display_y_offset, ffi.display_y_offset),
            display_f2_offset: optional(ffi.has_display_f2_offset, ffi.display_f2_offset),
            aspect_ratio: Rational::from_ffi(&ffi.aspect_ratio),
            active_format_descriptor: optional(ffi.has_active_format_descriptor, ffi.active_format_descriptor),
            alpha_transparency: optional(ffi.has_alpha_transparency, ffi.alpha_transparency),
            image_alignment_offset: optional(ffi.has_image_alignment_offset, ffi.image_alignment_offset),
            image_start_offset: optional(ffi.has_image_start_offset, ffi.image_start_offset),
            image_end_offset: optional(ffi.has_image_end_offset, ffi.image_end_offset),
            field_dominance: optional(ffi.has_field_dominance, ffi.field_dominance),
            picture_essence_coding: ffi.picture_essence_coding,
            coding_equations: optional(ffi.has_coding_equations, ffi.coding_equations),
            alternative_center_cuts: prefix(&ffi.alternative_center_cuts, ffi.alternative_center_cut_count as usize),
            active_width: optional(ffi.has_active_width, ffi.active_width),
            active_height: optional(ffi.has_active_height, ffi.active_height),
            active_x_offset: optional(ffi.has_active_x_offset, ffi.active_x_offset),
            active_y_offset: optional(ffi.has_active_y_offset, ffi.active_y_offset),
            video_line_map: optional(ffi.has_video_line_map, ffi.video_line_map),
            hdr: HdrMetadata::from_ffi(&ffi.hdr),
            component_max_ref: optional(ffi.has_component_max_ref, ffi.component_max_ref),
            component_min_ref: optional(ffi.has_component_min_ref, ffi.component_min_ref),
            alpha_min_ref: optional(ffi.has_alpha_min_ref, ffi.alpha_min_ref),
            alpha_max_ref: optional(ffi.has_alpha_max_ref, ffi.alpha_max_ref),
            scanning_direction: optional(ffi.has_scanning_direction, ffi.scanning_direction),
            pixel_layout: ffi.pixel_layout,
        }
    }
}

/// Every item of the MXF `JPEG2000PictureSubDescriptor` the RGBA essence
/// descriptor links.
#[derive(Debug, Clone, PartialEq, Eq)]
pub struct Jpeg2000PictureSubDescriptor {
    pub instance_id: [u8; 16],
    pub generation_id: Option<[u8; 16]>,
    pub rsize: u16,
    pub xsize: u32,
    pub ysize: u32,
    pub x_osize: u32,
    pub y_osize: u32,
    pub xt_size: u32,
    pub yt_size: u32,
    pub xt_osize: u32,
    pub yt_osize: u32,
    pub csize: u16,
    /// The SIZ per-component Ssize, XRsize and YRsize triples, preceded by
    /// the big-endian item count and item size.
    pub picture_component_sizing: Option<Vec<u8>>,
    /// The COD marker segment bytes.
    pub coding_style_default: Option<Vec<u8>>,
    /// The QCD marker segment bytes.
    pub quantization_default: Option<Vec<u8>>,
    /// Component code and bit depth pairs, one per codestream component,
    /// zero-terminated. This is where Photon reads the pixel bit depth.
    pub j2c_layout: Option<[u8; 16]>,
    pub extended_capabilities: Option<ExtendedCapabilities>,
    pub profile: Option<Vec<u16>>,
    pub corresponding_profile: Option<Vec<u16>>,
}

impl Jpeg2000PictureSubDescriptor {
    /// This sub-descriptor is what the C record `ffi` carries: every item
    /// copied, each optional item present exactly when its flag is set, and
    /// each byte string and list cut to its length.
    pub open spec fn is_read_from(self, ffi: sys::AsdcpJpeg2000SubDescriptor) -> bool {
        &&& self.instance_id == ffi.instance_id
        &&& is_optional_read(self.generation_id, ffi.has_generation_id, ffi.generation_id)
        &&& self.rsize == ffi.rsize
        &&& self.xsize == ffi.xsize
        &&& self.ysize == ffi.ysize
        &&& self.x_osize == ffi.x_osize
        &&& self.y_osize == ffi.y_osize
        &&& self.xt_size == ffi.xt_size
        &&& self.yt_size == ffi.yt_size
        &&& self.xt_osize == ffi.xt_osize
        &&& self.yt_osize == ffi.yt_osize
        &&& self.csize == ffi.csize
        &&& (self.picture_component_sizing is Some) == (ffi.has_picture_component_sizing != 0)
        &&& (self.picture_component_sizing matches Some(v) ==> v@ == ffi.picture_component_sizing@.take(ffi.picture_component_sizing_length as int))
        &&& (self.coding_style_default is Some) == (ffi.has_coding_style_default != 0)
        &&& (self.coding_style_default matches Some(v) ==> v@ == ffi.coding_style_default@.take(ffi.coding_style_default_length as int))
        &&& (self.quantization_default is Some) == (ffi.has_quantization_default != 0)
        &&& (self.quantization_default matches Some(v) ==> v@ == ffi.quantization_default@.take(ffi.quantization_default_length as int))
        &&& is_optional_read(self.j2c_layout, ffi.has_j2c_layout, ffi.j2c_layout)
        &&& (self.extended_capabilities is Some) == (ffi.has_extended_capabilities != 0)
        &&& (self.extended_capabilities matches Some(c) ==> c.pcap == ffi.pcap && c.ccap@
            == ffi.ccap@.take(ffi.capability_count as int))
        &&& (self.profile is Some) == (ffi.has_profile != 0)
        &&& (self.profile matches Some(v) ==> v@ == ffi.profile@.take(ffi.profile_count as int))
        &&& (self.corresponding_profile is Some) == (ffi.has_corresponding_profile != 0)
        &&& (self.corresponding_profile matches Some(v) ==> v@ == ffi.corresponding_profile@.take(ffi.corresponding_profile_count as int))
    }

    /// Whether every length and count of the C record is within its array.
    pub open spec fn spec_readable(ffi: sys::AsdcpJpeg2000SubDescriptor) -> bool {
        &&& ffi.picture_component_sizing_length <= sys::ASDCP_MAX_COMPONENT_SIZING
        &&& ffi.coding_style_default_length <= sys::ASDCP_MAX_CODING_STYLE
        &&& ffi.quantization_default_length <= sys::ASDCP_MAX_QUANTIZATION
        &&& ffi.capability_count <= sys::ASDCP_JP2K_MAX_CAPABILITIES
        &&& ffi.profile_count <= sys::ASDCP_MAX_PROFILES
        &&& ffi.corresponding_profile_count <= sys::ASDCP_MAX_PROFILES
    }

    /// Whether every length and count of the C record is within its array,
    /// so that [`Jpeg2000PictureSubDescriptor::from_ffi`] can read it.
    pub fn readable(ffi: &sys::AsdcpJpeg2000SubDescriptor) -> (ok: bool)
        ensures
            ok == Jpeg2000PictureSubDescriptor::spec_readable(*ffi),
    {
        (ffi.picture_component_sizing_length as usize) <= sys::ASDCP_MAX_COMPONENT_SIZING
            && (ffi.coding_style_default_length as usize) <= sys::ASDCP_MAX_CODING_STYLE
            && (ffi.quantization_default_length as usize) <= sys::ASDCP_MAX_QUANTIZATION
            && (ffi.capability_count as usize) <= sys::ASDCP_JP2K_MAX_CAPABILITIES
            && (ffi.profile_count as usize) <= sys::ASDCP_MAX_PROFILES
            && (ffi.corresponding_profile_count as usize) <= sys::ASDCP_MAX_PROFILES
    }

    pub fn from_ffi(ffi: &sys::AsdcpJpeg2000SubDescriptor) -> (desc: Jpeg2000PictureSubDescriptor)
        requires
            Jpeg2000PictureSubDescriptor::spec_readable(*ffi),
        ensures
            desc.is_read_from(*ffi),
    {
        Jpeg2000PictureSubDescriptor {
            instance_id: ffi.instance_id,
            generation_id: optional(ffi.has_generation_id, ffi.generation_id),
            rsize: ffi.rsize,
            xsize: ffi.xsize,
            ysize: ffi.ysize,
            x_osize: ffi.x_osize,
            y_osize: ffi.y_osize,
            xt_size: ffi.xt_size,
            yt_size: ffi.yt_size,
            xt_osize: ffi.xt_osize,
            yt_osize: ffi.yt_osize,
            csize: ffi.csize,
            picture_component_sizing: optional(ffi.has_picture_component_sizing, prefix(&ffi.picture_component_sizing, ffi.picture_component_sizing_length as usize)),
            coding_style_default: optional(ffi.has_coding_style_default, prefix(&ffi.coding_style_default, ffi.coding_style_default_length as usize)),
            quantization_default: optional(ffi.has_quantization_default, prefix(&ffi.quantization_default, ffi.quantization_default_length as usize)),
            j2c_layout: optional(ffi.has_j2c_layout, ffi.j2c_layout),
            extended_capabilities: optional(
                ffi.has_extended_capabilities,
                ExtendedCapabilities { pcap: ffi.pcap, ccap: prefix(&ffi.ccap, ffi.capability_count as usize) },
            ),
            profile: optional(ffi.has_profile, prefix(&ffi.profile, ffi.profile_count as usize)),
            corresponding_profile: optional(ffi.has_corresponding_profile, prefix(&ffi.corresponding_profile, ffi.corresponding_profile_count as usize)),
        }
    }
}

/// An RGBA descriptor read from a record takes the profile label, the pixel
/// layout and the component reference levels each from the field of the same name: an optional item present exactly when its
/// own presence flag is nonzero, and each list or byte string cut to its own
/// count or length.
pub proof fn lemma_rgba_descriptor_read_fields(desc: RgbaDescriptor, ffi: sys::AsdcpRgbaDescriptor)
    requires
        desc.is_read_from(ffi),
    ensures
        desc.picture_essence_coding == (if ffi.has_picture_essence_coding != 0 { Some(ffi.picture_essence_coding) } else { None }),
        desc.pixel_layout == ffi.pixel_layout,
        desc.component_max_ref == (if ffi.has_component_max_ref != 0 { Some(ffi.component_max_ref) } else { None }),
        desc.component_min_ref == (if ffi.has_component_min_ref != 0 { Some(ffi.component_min_ref) } else { None }),
{
}

/// An RGBA essence descriptor read from a record takes every item each from the field of the same name: an optional item present exactly when its
/// own presence flag is nonzero, and each list or byte string cut to its own
/// count or length.
pub proof fn lemma_rgba_essence_descriptor_read_fields(desc: RgbaEssenceDescriptor, ffi: sys::AsdcpRgbaEssenceDescriptor)
    requires
        desc.is_read_from(ffi),
    ensures
        desc.instance_id == ffi.instance_id,
        desc.generation_id == (if ffi.has_generation_id != 0 { Some(ffi.generation_id) } else { None }),
        desc.locators@ == ffi.locators@.take(ffi.locator_count as int),
        desc.sub_descriptors@ == ffi.sub_descriptors@.take(ffi.sub_descriptor_count as int),
        desc.linked_track_id == (if ffi.has_linked_track_id != 0 { Some(ffi.linked_track_id) } else { None }),
        desc.sample_rate == Rational::spec_from_ffi(ffi.sample_rate),
        desc.container_duration == (if ffi.has_container_duration != 0 { Some(ffi.container_duration) } else { None }),
        desc.essence_container == ffi.essence_container,
        desc.codec == (if ffi.has_codec != 0 { Some(ffi.codec) } else { None }),
        desc.signal_standard == (if ffi.has_signal_standard != 0 { Some(ffi.signal_standard) } else { None }),
        desc.frame_layout == ffi.frame_layout,
        desc.stored_width == ffi.stored_width,
        desc.stored_height == ffi.stored_height,
        desc.stored_f2_offset == (if ffi.has_stored_f2_offset != 0 { Some(ffi.stored_f2_offset) } else { None }),
        desc.sampled_width == (if ffi.has_sampled_width != 0 { Some(ffi.sampled_width) } else { None }),
        desc.sampled_height == (if ffi.has_sampled_height != 0 { Some(ffi.sampled_height) } else { None }),
        desc.sampled_x_offset == (if ffi.has_sampled_x_offset != 0 { Some(ffi.sampled_x_offset) } else { None }),
        desc.sampled_y_offset == (if ffi.has_sampled_y_offset != 0 { Some(ffi.sampled_y_offset) } else { None }),
        desc.display_height == (if ffi.has_display_height != 0 { Some(ffi.display_height) } else { None }),
        desc.display_width == (if ffi.has_display_width != 0 { Some(ffi.display_width) } else { None }),
        desc.display_x_offset == (if ffi.has_display_x_offset != 0 { Some(ffi.display_x_offset) } else { None }),
        desc.display_y_offset == (if ffi.has_display_y_offset != 0 { Some(ffi.display_y_offset) } else { None }),
        desc.display_f2_offset == (if ffi.has_display_f2_offset != 0 { Some(ffi.display_f2_offset) } else { None }),
        desc.aspect_ratio == Rational::spec_from_ffi(ffi.aspect_ratio),
        desc.active_format_descriptor == (if ffi.has_active_format_descriptor != 0 { Some(ffi.active_format_descriptor) } else { None }),
        desc.alpha_transparency == (if ffi.has_alpha_transparency != 0 { Some(ffi.alpha_transparency) } else { None }),
        desc.image_alignment_offset == (if ffi.has_image_alignment_offset != 0 { Some(ffi.image_alignment_offset) } else { None }),
        desc.image_start_offset == (if ffi.has_image_start_offset != 0 { Some(ffi.image_start_offset) } else { None }),
        desc.image_end_offset == (if ffi.has_image_end_offset != 0 { Some(ffi.image_end_offset) } else { None }),
        desc.field_dominance == (if ffi.has_field_dominance != 0 { Some(ffi.field_dominance) } else { None }),
        desc.picture_essence_coding == ffi.picture_essence_coding,
        desc.coding_equations == (if ffi.has_coding_equations != 0 { Some(ffi.coding_equations) } else { None }),
        desc.alternative_center_cuts@ == ffi.alternative_center_cuts@.take(ffi.alternative_center_cut_count as int),
        desc.active_width == (if ffi.has_active_width != 0 { Some(ffi.active_width) } else { None }),
        desc.active_height == (if ffi.has_active_height != 0 { Some(ffi.active_height) } else { None }),
        desc.active_x_offset == (if ffi.has_active_x_offset != 0 { Some(ffi.active_x_offset) } else { None }),
        desc.active_y_offset == (if ffi.has_active_y_offset != 0 { Some(ffi.active_y_offset) } else { None }),
        desc.video_line_map == (if ffi.has_video_line_map != 0 { Some(ffi.video_line_map) } else { None }),
        desc.hdr.is_read_from(ffi.hdr),
        desc.component_max_ref == (if ffi.has_component_max_ref != 0 { Some(ffi.component_max_ref) } else { None }),
        desc.component_min_ref == (if ffi.has_component_min_ref != 0 { Some(ffi.component_min_ref) } else { None }),
        desc.alpha_min_ref == (if ffi.has_alpha_min_ref != 0 { Some(ffi.alpha_min_ref) } else { None }),
        desc.alpha_max_ref == (if ffi.has_alpha_max_ref != 0 { Some(ffi.alpha_max_ref) } else { None }),
        desc.scanning_direction == (if ffi.has_scanning_direction != 0 { Some(ffi.scanning_direction) } else { None }),
        desc.pixel_layout == ffi.pixel_layout,
{
}

/// A JPEG 2000 sub-descriptor read from a record takes every item each from the field of the same name: an optional item present exactly when its
/// own presence flag is nonzero, and each list or byte string cut to its own
/// count or length.
pub proof fn lemma_jpeg2000_sub_descriptor_read_fields(desc: Jpeg2000PictureSubDescriptor, ffi: sys::AsdcpJpeg2000SubDescriptor)
    requires
        desc.is_read_from(ffi),
    ensures
        desc.instance_id == ffi.instance_id,
        desc.generation_id == (if ffi.has_generation_id != 0 { Some(ffi.generation_id) } else { None }),
        desc.rsize == ffi.rsize,
        desc.xsize == ffi.xsize,
        desc.ysize == ffi.ysize,
        desc.x_osize == ffi.x_osize,
        desc.y_osize == ffi.y_osize,
        desc.xt_size == ffi.xt_size,
        desc.yt_size == ffi.yt_size,
        desc.xt_osize == ffi.xt_osize,
        desc.yt_osize == ffi.yt_osize,
        desc.csize == ffi.csize,
        (desc.picture_component_sizing is Some) == (ffi.has_picture_component_sizing != 0),
        (desc.picture_component_sizing matches Some(v) ==> v@ == ffi.picture_component_sizing@.take(ffi.picture_component_sizing_length as int)),
        (desc.coding_style_default is Some) == (ffi.has_coding_style_default != 0),
        (desc.coding_style_default matches Some(v) ==> v@ == ffi.coding_style_default@.take(ffi.coding_style_default_length as int)),
        (desc.quantization_default is Some) == (ffi.has_quantization_default != 0),
        (desc.quantization_default matches Some(v) ==> v@ == ffi.quantization_default@.take(ffi.quantization_default_length as int)),
        desc.j2c_layout == (if ffi.has_j2c_layout != 0 { Some(ffi.j2c_layout) } else { None }),
        (desc.extended_capabilities is Some) == (ffi.has_extended_capabilities != 0),
        (desc.extended_capabilities matches Some(c) ==> c.pcap == ffi.pcap && c.ccap@ == ffi.ccap@.take(ffi.capability_count as int)),
        (desc.profile is Some) == (ffi.has_profile != 0),
        (desc.profile matches Some(v) ==> v@ == ffi.profile@.take(ffi.profile_count as int)),
        (desc.corresponding_profile is Some) == (ffi.has_corresponding_profile != 0),
        (desc.corresponding_profile matches Some(v) ==> v@ == ffi.corresponding_profile@.take(ffi.corresponding_profile_count as int)),
{
}

} // verus!
