//! Plain-data mirror of the C interface of the asdcplib shim.
//!
//! These are the values that cross the boundary to the C++ library: opaque
//! handle types (only ever pointed to, never built on this side), and
//! descriptor records laid out as fixed arrays with counts
//! and presence flags. The safe types of this crate convert to and from them.
use vstd::prelude::*;

verus! {

/// Opaque handle to a JP2K MXF writer.
pub enum AsdcpJp2kWriter {
    Opaque,
}

/// Opaque handle to a JP2K MXF reader.
pub enum AsdcpJp2kReader {
    Opaque,
}

/// Opaque handle to a PCM MXF writer.
pub enum AsdcpPcmWriter {
    Opaque,
}

/// Opaque handle to a PCM MXF reader.
pub enum AsdcpPcmReader {
    Opaque,
}

/// Opaque handle to a TimedText MXF writer.
pub enum AsdcpTimedTextWriter {
    Opaque,
}

/// Opaque handle to a TimedText MXF reader.
pub enum AsdcpTimedTextReader {
    Opaque,
}

/// Opaque handle to an Atmos MXF writer.
pub enum AsdcpAtmosWriter {
    Opaque,
}

/// Opaque handle to an Atmos MXF reader.
pub enum AsdcpAtmosReader {
    Opaque,
}

/// Opaque handle to a JP2K stereoscopic MXF writer.
pub enum AsdcpJp2kSWriter {
    Opaque,
}

/// Opaque handle to a JP2K stereoscopic MXF reader.
pub enum AsdcpJp2kSReader {
    Opaque,
}

/// Opaque handle to an AES encryption context.
pub enum AsdcpAesEncContext {
    Opaque,
}

/// Opaque handle to an AES decryption context.
pub enum AsdcpAesDecContext {
    Opaque,
}

/// Opaque handle to an HMAC context.
pub enum AsdcpHmacContext {
    Opaque,
}

/// Result code the shim returns when a caller's buffer is too short; the
/// size that was needed is reported through the out-size parameter.
pub const RESULT_SMALLBUF: i32 = -4;

/// Most image components a codestream header record carries.
pub const ASDCP_JP2K_MAX_COMPONENTS: usize = 4;

/// Precinct size bytes the COD marker can carry (ISO 15444-1 Annex A.6.1).
pub const ASDCP_JP2K_MAX_PRECINCT_SIZES: usize = 32;

/// Quantization step sizes a QCD record carries.
pub const ASDCP_JP2K_MAX_DEFAULTS: usize = 256;

/// Ccap entries a CAP record carries.
pub const ASDCP_JP2K_MAX_CAPABILITIES: usize = 32;

/// `capability_count` value of a codestream that carries no CAP marker.
pub const ASDCP_JP2K_NO_EXTENDED_CAPABILITIES: i8 = -1;

/// Essence locators an RGBA essence descriptor record carries.
pub const ASDCP_MAX_LOCATORS: usize = 8;

/// Sub-descriptor InstanceIDs a descriptor record carries.
pub const ASDCP_MAX_SUB_DESCRIPTORS: usize = 16;

/// Alternative center cut labels a descriptor record carries.
pub const ASDCP_MAX_ALTERNATIVE_CENTER_CUTS: usize = 8;

/// Bytes of the PictureComponentSizing item a sub-descriptor record carries.
pub const ASDCP_MAX_COMPONENT_SIZING: usize = 64;

/// Bytes of the CodingStyleDefault item a sub-descriptor record carries.
pub const ASDCP_MAX_CODING_STYLE: usize = 64;

/// Bytes of the QuantizationDefault item a sub-descriptor record carries.
pub const ASDCP_MAX_QUANTIZATION: usize = 512;

/// J2K profile entries a sub-descriptor record carries.
pub const ASDCP_MAX_PROFILES: usize = 16;

/// Writer identification info.
#[derive(Debug, Clone, Copy)]
pub struct AsdcpWriterInfo {
    pub product_uuid: [u8; 16],
    pub asset_uuid: [u8; 16],
    pub context_id: [u8; 16],
    pub cryptographic_key_id: [u8; 16],
    pub encrypted_essence: i32,
    pub uses_hmac: i32,
    /// 0 = Unknown, 1 = Interop, 2 = SMPTE.
    pub label_set_type: i32,
}

/// Rational number.
#[derive(Debug, Clone, Copy)]
pub struct AsdcpRational {
    pub numerator: i32,
    pub denominator: i32,
}

/// One SIZ image component.
#[derive(Debug, Clone, Copy)]
pub struct AsdcpImageComponent {
    pub ssize: u8,
    pub x_rsize: u8,
    pub y_rsize: u8,
}

/// The COD marker segment.
#[derive(Debug, Clone, Copy)]
pub struct AsdcpCodingStyleDefault {
    pub scod: u8,
    pub progression_order: u8,
    /// Big-endian.
    pub number_of_layers: [u8; 2],
    pub multi_component_transform: u8,
    pub decomposition_levels: u8,
    pub codeblock_width: u8,
    pub codeblock_height: u8,
    pub codeblock_style: u8,
    pub transformation: u8,
    pub precinct_sizes: [u8; ASDCP_JP2K_MAX_PRECINCT_SIZES],
}

/// The QCD marker segment.
#[derive(Debug, Clone, Copy)]
pub struct AsdcpQuantizationDefault {
    pub sqcd: u8,
    pub spqcd: [u8; ASDCP_JP2K_MAX_DEFAULTS],
    pub spqcd_length: u8,
}

/// The CAP marker segment.
#[derive(Debug, Clone, Copy)]
pub struct AsdcpExtendedCapabilities {
    pub pcap: u32,
    /// Number of Ccap entries, or [`ASDCP_JP2K_NO_EXTENDED_CAPABILITIES`].
    pub capability_count: i8,
    pub ccap: [u16; ASDCP_JP2K_MAX_CAPABILITIES],
}

/// The codestream header values of a JPEG 2000 picture sub-descriptor.
#[derive(Debug, Clone, Copy)]
pub struct AsdcpCodestreamHeader {
    pub rsize: u16,
    pub xsize: u32,
    pub ysize: u32,
    pub x_osize: u32,
    pub y_osize: u32,
    pub xt_size: u32,
    pub yt_size: u32,
    pub xt_osize: u32,
    pub yt_osize: u32,
    pub csize: u16,
    pub image_components: [AsdcpImageComponent; ASDCP_JP2K_MAX_COMPONENTS],
    pub coding_style_default: AsdcpCodingStyleDefault,
    pub quantization_default: AsdcpQuantizationDefault,
    pub extended_capabilities: AsdcpExtendedCapabilities,
}

/// JP2K picture descriptor.
#[derive(Debug, Clone, Copy)]
pub struct AsdcpPictureDescriptor {
    pub edit_rate: AsdcpRational,
    pub sample_rate: AsdcpRational,
    pub stored_width: u32,
    pub stored_height: u32,
    pub aspect_ratio: AsdcpRational,
    pub container_duration: u32,
    pub codestream: AsdcpCodestreamHeader,
}

/// HDR/WCG picture metadata, each item with its presence flag.
#[derive(Debug, Clone, Copy)]
pub struct AsdcpHdrMetadata {
    pub has_transfer_characteristic: i32,
    pub transfer_characteristic: [u8; 16],
    pub has_color_primaries: i32,
    pub color_primaries: [u8; 16],
    pub has_mastering_display_primaries: i32,
    /// x, y of the first, second and third primary.
    pub mastering_display_primaries: [u16; 6],
    pub has_mastering_display_white_point: i32,
    pub mastering_display_white_point: [u16; 2],
    pub has_mastering_display_max_luminance: i32,
    pub mastering_display_max_luminance: u32,
    pub has_mastering_display_min_luminance: i32,
    pub mastering_display_min_luminance: u32,
}

/// PCM audio descriptor.
#[derive(Debug, Clone, Copy)]
pub struct AsdcpAudioDescriptor {
    pub edit_rate: AsdcpRational,
    pub audio_sampling_rate: AsdcpRational,
    pub locked: u32,
    pub channel_count: u32,
    pub quantization_bits: u32,
    pub block_align: u32,
    pub avg_bps: u32,
    pub linked_track_id: u32,
    pub container_duration: u32,
    pub channel_format: i32,
}

/// Timed text descriptor.
#[derive(Debug, Clone, Copy)]
pub struct AsdcpTimedTextDescriptor {
    pub edit_rate: AsdcpRational,
    pub container_duration: u32,
    pub asset_id: [u8; 16],
}

/// Atmos descriptor.
#[derive(Debug, Clone, Copy)]
pub struct AsdcpAtmosDescriptor {
    pub edit_rate: AsdcpRational,
    pub container_duration: u32,
    pub asset_id: [u8; 16],
    pub data_essence_coding: [u8; 16],
    pub first_frame: u32,
    pub max_channel_count: u16,
    pub max_object_count: u16,
    pub atmos_id: [u8; 16],
    pub atmos_version: u8,
}


/// The RGBA essence descriptor's profile label, pixel layout and component
/// reference levels, each optional one with its presence flag.
#[derive(Debug, Clone, Copy)]
pub struct AsdcpRgbaDescriptor {
    pub has_picture_essence_coding: i32,
    pub picture_essence_coding: [u8; 16],
    pub pixel_layout: [u8; 16],
    pub has_component_max_ref: i32,
    pub component_max_ref: u32,
    pub has_component_min_ref: i32,
    pub component_min_ref: u32,
}

/// Every item of an RGBA essence descriptor, each optional one with its
/// presence flag and each list with its count.
#[derive(Debug, Clone, Copy)]
pub struct AsdcpRgbaEssenceDescriptor {
    pub instance_id: [u8; 16],
    pub has_generation_id: i32,
    pub generation_id: [u8; 16],
    pub locator_count: u32,
    pub locators: [[u8; 16]; ASDCP_MAX_LOCATORS],
    pub sub_descriptor_count: u32,
    pub sub_descriptors: [[u8; 16]; ASDCP_MAX_SUB_DESCRIPTORS],
    pub has_linked_track_id: i32,
    pub linked_track_id: u32,
    pub sample_rate: AsdcpRational,
    pub has_container_duration: i32,
    pub container_duration: u64,
    pub essence_container: [u8; 16],
    pub has_codec: i32,
    pub codec: [u8; 16],
    pub has_signal_standard: i32,
    pub signal_standard: u8,
    pub frame_layout: u8,
    pub stored_width: u32,
    pub stored_height: u32,
    pub has_stored_f2_offset: i32,
    pub stored_f2_offset: u32,
    pub has_sampled_width: i32,
    pub sampled_width: u32,
    pub has_sampled_height: i32,
    pub sampled_height: u32,
    pub has_sampled_x_offset: i32,
    pub sampled_x_offset: u32,
    pub has_sampled_y_offset: i32,
    pub sampled_y_offset: u32,
    pub has_display_height: i32,
    pub display_height: u32,
    pub has_display_width: i32,
    pub display_width: u32,
    pub has_display_x_offset: i32,
    pub display_x_offset: u32,
    pub has_display_y_offset: i32,
    pub display_y_offset: u32,
    pub has_display_f2_offset: i32,
    pub display_f2_offset: u32,
    pub aspect_ratio: AsdcpRational,
    pub has_active_format_descriptor: i32,
    pub active_format_descriptor: u8,
    pub has_alpha_transparency: i32,
    pub alpha_transparency: u8,
    pub has_image_alignment_offset: i32,
    pub image_alignment_offset: u32,
    pub has_image_start_offset: i32,
    pub image_start_offset: u32,
    pub has_image_end_offset: i32,
    pub image_end_offset: u32,
    pub has_field_dominance: i32,
    pub field_dominance: u8,
    pub picture_essence_coding: [u8; 16],
    pub has_coding_equations: i32,
    pub coding_equations: [u8; 16],
    pub alternative_center_cut_count: u32,
    pub alternative_center_cuts: [[u8; 16]; ASDCP_MAX_ALTERNATIVE_CENTER_CUTS],
    pub has_active_width: i32,
    pub active_width: u32,
    pub has_active_height: i32,
    pub active_height: u32,
    pub has_active_x_offset: i32,
    pub active_x_offset: u32,
    pub has_active_y_offset: i32,
    pub active_y_offset: u32,
    pub has_video_line_map: i32,
    pub video_line_map: [u32; 2],
    pub hdr: AsdcpHdrMetadata,
    pub has_component_max_ref: i32,
    pub component_max_ref: u32,
    pub has_component_min_ref: i32,
    pub component_min_ref: u32,
    pub has_alpha_min_ref: i32,
    pub alpha_min_ref: u32,
    pub has_alpha_max_ref: i32,
    pub alpha_max_ref: u32,
    pub has_scanning_direction: i32,
    pub scanning_direction: u8,
    pub pixel_layout: [u8; 16],
}

/// Every item of a JPEG 2000 picture sub-descriptor, each optional one with
/// its presence flag and each byte string or list with its length.
#[derive(Debug, Clone, Copy)]
pub struct AsdcpJpeg2000SubDescriptor {
    pub instance_id: [u8; 16],
    pub has_generation_id: i32,
    pub generation_id: [u8; 16],
    pub rsize: u16,
    pub xsize: u32,
    pub ysize: u32,
    pub x_osize: u32,
    pub y_osize: u32,
    pub xt_size: u32,
    pub yt_size: u32,
    pub xt_osize: u32,
    pub yt_osize: u32,
    pub csize: u16,
    pub has_picture_component_sizing: i32,
    pub picture_component_sizing: [u8; ASDCP_MAX_COMPONENT_SIZING],
    pub picture_component_sizing_length: u32,
    pub has_coding_style_default: i32,
    pub coding_style_default: [u8; ASDCP_MAX_CODING_STYLE],
    pub coding_style_default_length: u32,
    pub has_quantization_default: i32,
    pub quantization_default: [u8; ASDCP_MAX_QUANTIZATION],
    pub quantization_default_length: u32,
    pub has_j2c_layout: i32,
    pub j2c_layout: [u8; 16],
    pub has_extended_capabilities: i32,
    pub pcap: u32,
    pub capability_count: u32,
    pub ccap: [u16; ASDCP_JP2K_MAX_CAPABILITIES],
    pub has_profile: i32,
    pub profile: [u16; ASDCP_MAX_PROFILES],
    pub profile_count: u32,
    pub has_corresponding_profile: i32,
    pub corresponding_profile: [u16; ASDCP_MAX_PROFILES],
    pub corresponding_profile_count: u32,
}

} // verus!
